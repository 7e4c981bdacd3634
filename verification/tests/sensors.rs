use petagent_plugins::json::Json;
use petagent_plugins::readings::{monitor_report, nvml_report, SensorRow};
use petagent_plugins::sensors::{
    any_from_source, call, capabilities, classify_row, classify_sensor, invoke_reply, monitor_source,
    normalize_sensor_type, sort_readings, temperature_report, text_order, CallOutcome, Reading,
    TextOrder,
};

fn text(s: &str) -> Json {
    Json::Str(s.to_string())
}

fn object(fields: Vec<(&str, Json)>) -> Json {
    Json::Object(fields.into_iter().map(|(k, v)| (k.to_string(), v)).collect())
}

fn at<'a>(j: &'a Json, i: usize) -> &'a Json {
    match j {
        Json::Array(items) => &items[i],
        _ => panic!("not an array"),
    }
}

fn reading(class: &str, name: &str, celsius: &str, source: &str) -> Reading {
    Reading {
        sensor_class: class.to_string(),
        name: name.to_string(),
        celsius: celsius.to_string(),
        source: source.to_string(),
    }
}

#[test]
fn classifies_common_sensors() {
    assert_eq!(classify_sensor("CPU Package", "Intel CPU", "cpu/0"), Some("cpu"));
    assert_eq!(classify_sensor("GPU Core", "NVIDIA", "gpu/0"), Some("gpu"));
    assert_eq!(classify_sensor("Temperature", "Mainboard", "board/0"), None);
}

#[test]
fn exposes_temperature_capability() {
    let caps = capabilities();
    let first = at(caps.get("capabilities").unwrap(), 0);
    assert_eq!(first.get("name").unwrap().as_str(), Some("hardware.temperature"));
}

#[test]
fn gpu_words_take_precedence_over_cpu_words() {
    assert_eq!(classify_sensor("Core", "Radeon RX", "amdcpu/0"), Some("gpu"));
    assert_eq!(classify_sensor("Graphics", "", ""), Some("gpu"));
    assert_eq!(classify_sensor("Processor", "", ""), Some("cpu"));
}

#[test]
fn classification_ignores_ascii_case() {
    assert_eq!(classify_sensor("cpu package", "intel cpu", "CPU/0"), Some("cpu"));
    assert_eq!(classify_sensor("GRAPHICS", "", ""), Some("gpu"));
}

#[test]
fn classification_spans_the_joined_text() {
    // "co" ends the name and "re" starts no field, so "core" is not formed across a space.
    assert_eq!(classify_sensor("co", "re", ""), None);
    assert_eq!(classify_sensor("", "", "processor"), Some("cpu"));
}

#[test]
fn normalizes_temperature_types() {
    assert_eq!(normalize_sensor_type("Temperature"), Some("temperature"));
    assert_eq!(normalize_sensor_type("  TEMP\t"), Some("temperature"));
    assert_eq!(normalize_sensor_type("temp erature"), None);
    assert_eq!(normalize_sensor_type("Voltage"), None);
    assert_eq!(normalize_sensor_type(""), None);
}

#[test]
fn classifies_monitor_rows() {
    assert_eq!(classify_row("Temperature", "CPU Package", "Intel", "/cpu/0"), Some("cpu"));
    assert_eq!(classify_row("Load", "CPU Package", "Intel", "/cpu/0"), None);
    assert_eq!(classify_row("temp", "Board", "Mainboard", "/lpc/0"), None);
}

#[test]
fn names_monitor_sources() {
    assert_eq!(monitor_source("ROOT\\LibreHardwareMonitor"), "librehardwaremonitor-wmi");
    assert_eq!(monitor_source("ROOT\\OpenHardwareMonitor"), "openhardwaremonitor-wmi");
}

#[test]
fn orders_texts_by_characters() {
    assert_eq!(text_order("cpu", "gpu"), TextOrder::Before);
    assert_eq!(text_order("gpu", "cpu"), TextOrder::After);
    assert_eq!(text_order("cpu", "cpu"), TextOrder::Same);
    assert_eq!(text_order("cp", "cpu"), TextOrder::Before);
    assert_eq!(text_order("Z", "a"), TextOrder::Before);
}

#[test]
fn sorts_readings_stably_by_class_name_and_source() {
    let sorted = sort_readings(vec![
        reading("thermal_zone", "TZ0", "40", "acpi-thermal-zone"),
        reading("gpu", "GeForce", "55", "nvml"),
        reading("cpu", "Core #1", "50", "librehardwaremonitor-wmi"),
        reading("cpu", "Core #0", "48", "librehardwaremonitor-wmi"),
        reading("cpu", "Core #0", "49", "librehardwaremonitor-wmi"),
        reading("cpu", "Core #0", "47", "openhardwaremonitor-wmi"),
    ]);
    let order: Vec<(&str, &str, &str)> = sorted
        .iter()
        .map(|r| (r.sensor_class.as_str(), r.name.as_str(), r.celsius.as_str()))
        .collect();
    assert_eq!(
        order,
        vec![
            ("cpu", "Core #0", "48"),
            ("cpu", "Core #0", "49"),
            ("cpu", "Core #0", "47"),
            ("cpu", "Core #1", "50"),
            ("gpu", "GeForce", "55"),
            ("thermal_zone", "TZ0", "40"),
        ]
    );
}

#[test]
fn reports_counts_and_availability() {
    let report = temperature_report(
        vec![
            reading("thermal_zone", "TZ0", "40.5", "acpi-thermal-zone"),
            reading("cpu", "CPU Package", "51.25", "librehardwaremonitor-wmi"),
        ],
        &vec!["nvml-windows-only".to_string()],
    );
    assert_eq!(report.get("available"), Some(&Json::Bool(true)));
    assert_eq!(report.get("cpuTemperatureAvailable"), Some(&Json::Bool(true)));
    assert_eq!(report.get("gpuTemperatureAvailable"), Some(&Json::Bool(false)));
    assert_eq!(report.get("cpuSensorCount"), Some(&Json::Uint(1)));
    assert_eq!(report.get("gpuSensorCount"), Some(&Json::Uint(0)));
    assert_eq!(report.get("sensorCount"), Some(&Json::Uint(2)));
    let readings = report.get("readings").unwrap();
    let first = at(readings, 0);
    assert_eq!(first.get("class").unwrap().as_str(), Some("cpu"));
    assert_eq!(first.get("temperatureCelsius"), Some(&Json::Decimal("51.25".to_string())));
    assert_eq!(at(report.get("sources").unwrap(), 0).as_str(), Some("nvml-windows-only"));
    assert!(matches!(report.get("limitations"), Some(Json::Array(items)) if items.len() == 3));
}

#[test]
fn reports_nothing_available_without_readings() {
    let report = temperature_report(vec![], &vec![]);
    assert_eq!(report.get("available"), Some(&Json::Bool(false)));
    assert_eq!(report.get("sensorCount"), Some(&Json::Uint(0)));
}

#[test]
fn finds_readings_by_source() {
    let readings = vec![reading("gpu", "GeForce", "55", "nvml")];
    assert!(any_from_source(&readings, "nvml"));
    assert!(!any_from_source(&readings, "acpi-thermal-zone"));
    assert!(!any_from_source(&vec![], "nvml"));
}

#[test]
fn call_refuses_oversized_input() {
    let outcome = call(1024 * 1024 + 1, Some(object(vec![("method", text("health"))])));
    match outcome {
        CallOutcome::Reply { code, reply } => {
            assert_eq!(code, 2);
            assert_eq!(reply.get("error").unwrap().as_str(), Some("input exceeds 1 MiB"));
        },
        _ => panic!("expected a reply"),
    }
}

#[test]
fn call_refuses_invalid_json() {
    match call(5, None) {
        CallOutcome::Reply { code, reply } => {
            assert_eq!(code, 3);
            assert_eq!(reply.get("error").unwrap().as_str(), Some("invalid JSON"));
        },
        _ => panic!("expected a reply"),
    }
}

#[test]
fn call_answers_health_and_unknown_requests() {
    match call(10, Some(object(vec![("method", text("health"))]))) {
        CallOutcome::Reply { code, reply } => {
            assert_eq!(code, 0);
            assert_eq!(reply.get("message").unwrap().as_str(), Some("hardware temperature ready"));
        },
        _ => panic!("expected a reply"),
    }
    match call(10, Some(object(vec![("method", text("invoke")), ("capability", text("other"))]))) {
        CallOutcome::Reply { code, reply } => {
            assert_eq!(code, 0);
            assert_eq!(reply.get("error").unwrap().as_str(), Some("unknown capability"));
        },
        _ => panic!("expected a reply"),
    }
    match call(10, Some(object(vec![("method", text("reboot"))]))) {
        CallOutcome::Reply { reply, .. } => {
            assert_eq!(reply.get("error").unwrap().as_str(), Some("unknown method"));
        },
        _ => panic!("expected a reply"),
    }
    match call(10, Some(Json::Null)) {
        CallOutcome::Reply { reply, .. } => {
            assert_eq!(reply.get("error").unwrap().as_str(), Some("unknown method"));
        },
        _ => panic!("expected a reply"),
    }
}

#[test]
fn call_asks_for_temperatures() {
    let request = object(vec![("method", text("invoke")), ("capability", text("hardware.temperature"))]);
    assert_eq!(call(60, Some(request)), CallOutcome::CollectTemperatures);
    let reply = invoke_reply(Json::Int(7));
    assert_eq!(reply.get("ok"), Some(&Json::Bool(true)));
    assert_eq!(reply.get("value"), Some(&Json::Int(7)));
}

fn parts(r: &Reading) -> (&str, &str, &str, &str) {
    (r.sensor_class.as_str(), r.name.as_str(), r.celsius.as_str(), r.source.as_str())
}

fn row(sensor_type: &str, name: &str, parent: &str, identifier: &str, celsius: Option<&str>) -> SensorRow {
    SensorRow {
        sensor_type: sensor_type.to_string(),
        name: name.to_string(),
        parent: parent.to_string(),
        identifier: identifier.to_string(),
        celsius: celsius.map(|c| c.to_string()),
    }
}

#[test]
fn nvml_devices_become_gpu_readings() {
    let (none, notes) = nvml_report(None);
    assert!(none.is_empty());
    assert_eq!(notes, ["nvml-unavailable"]);
    let (empty, notes) = nvml_report(Some(vec![None]));
    assert!(empty.is_empty());
    assert_eq!(notes, ["nvml-no-temperature"]);
    let mut devices = vec![None, Some(("41.0".to_string(), None)), Some(("50.0".to_string(), Some("RTX 4090".to_string())))];
    for _ in 0..9 {
        devices.push(None);
    }
    devices.push(Some(("38.0".to_string(), None)));
    let (readings, notes) = nvml_report(Some(devices));
    assert!(notes.is_empty());
    let got: Vec<_> = readings.iter().map(parts).collect();
    assert_eq!(
        got,
        [
            ("gpu", "NVIDIA GPU 1", "41.0", "nvml"),
            ("gpu", "RTX 4090", "50.0", "nvml"),
            ("gpu", "NVIDIA GPU 12", "38.0", "nvml"),
        ]
    );
}

#[test]
fn hardware_monitor_rows_become_readings() {
    let libre = vec![
        row("Temperature", "CPU Package", "/intelcpu/0", "/intelcpu/0/temperature/0", Some("55.5")),
        row("Load", "CPU Total", "/intelcpu/0", "/intelcpu/0/load/0", Some("12.0")),
        row("temp", "GPU Core", "/gpu-nvidia/0", "/gpu-nvidia/0/temperature/0", Some("61.0")),
        row("Temperature", "GPU Core", "/gpu-amd/0", "/gpu-amd/0/temperature/0", Some("48.0")),
        row("Temperature", "Fan", "/lpc/0", "/lpc/0/temperature/0", Some("30.0")),
        row("Temperature", "CPU Core #1", "/intelcpu/0", "/intelcpu/0/temperature/1", None),
    ];
    let open_rows = vec![row("Temperature", "CPU Package", "/cpu/0", "/cpu/0/t", Some("70.0"))];
    let namespaces = vec![
        ("ROOT\\LibreHardwareMonitor".to_string(), Some(libre)),
        ("ROOT\\OpenHardwareMonitor".to_string(), Some(open_rows)),
    ];
    let (readings, notes) = monitor_report(namespaces, false);
    assert!(notes.is_empty());
    let got: Vec<_> = readings.iter().map(parts).collect();
    assert_eq!(
        got,
        [
            ("cpu", "CPU Package", "55.5", "librehardwaremonitor-wmi"),
            ("gpu", "GPU Core", "61.0", "librehardwaremonitor-wmi"),
            ("gpu", "GPU Core", "48.0", "librehardwaremonitor-wmi"),
        ]
    );
}

#[test]
fn nvidia_rows_give_way_to_nvml() {
    let rows = vec![
        row("Temperature", "GPU Core", "/gpu-nvidia/0", "/gpu-nvidia/0/temperature/0", Some("61.0")),
        row("Temperature", "GPU Core", "/gpu-amd/0", "/gpu-amd/0/temperature/0", Some("48.0")),
    ];
    let (readings, _) = monitor_report(vec![("ROOT\\LibreHardwareMonitor".to_string(), Some(rows))], true);
    let got: Vec<_> = readings.iter().map(parts).collect();
    assert_eq!(got, [("gpu", "GPU Core", "48.0", "librehardwaremonitor-wmi")]);
}

#[test]
fn open_hardware_monitor_is_the_fallback() {
    let open_rows = vec![row("Temperature", "CPU Package", "/cpu/0", "/cpu/0/t", Some("70.0"))];
    let (readings, notes) = monitor_report(
        vec![
            ("ROOT\\LibreHardwareMonitor".to_string(), None),
            ("ROOT\\OpenHardwareMonitor".to_string(), Some(open_rows)),
        ],
        false,
    );
    assert!(notes.is_empty());
    assert_eq!(readings.iter().map(parts).collect::<Vec<_>>(), [("cpu", "CPU Package", "70.0", "openhardwaremonitor-wmi")]);
    let (none, notes) = monitor_report(
        vec![
            ("ROOT\\LibreHardwareMonitor".to_string(), None),
            ("ROOT\\OpenHardwareMonitor".to_string(), None),
        ],
        false,
    );
    assert!(none.is_empty());
    assert_eq!(notes, ["hardware-monitor-wmi-unavailable"]);
}

#[test]
fn classification_ignores_field_and_case() {
    assert_eq!(classify_sensor("Core #1", "x", "y"), classify_sensor("x", "y", "Core #1"));
    assert_eq!(classify_sensor("core #1", "x", "y"), classify_sensor("CORE #1", "x", "y"));
    assert_eq!(classify_sensor("a", "RADEON", "b"), Some("gpu"));
    assert_eq!(classify_sensor("g", "pu", "x"), None);
}
