//! Turning what NVML and the hardware-monitor WMI namespaces report into
//! temperature readings, with the notes on the sources that gave none.
use vstd::prelude::*;
use crate::sensors::{
    monitor_source, monitor_source_of, row_class_of, sensor_text, texts_view, classify_row, Reading,
};
use crate::text::{chars_of, contains, contains_chars, lower_chars, same_text};

verus! {

// ----------------------------------------------------------------------------
// Decimal numbers.

/// The decimal digit `d` (0 to 9).
pub open spec fn digit_char(d: nat) -> char {
    if d == 0 {
        '0'
    } else if d == 1 {
        '1'
    } else if d == 2 {
        '2'
    } else if d == 3 {
        '3'
    } else if d == 4 {
        '4'
    } else if d == 5 {
        '5'
    } else if d == 6 {
        '6'
    } else if d == 7 {
        '7'
    } else if d == 8 {
        '8'
    } else {
        '9'
    }
}

/// `n` in decimal digits, without leading zeros.
pub open spec fn decimal_text(n: nat) -> Seq<char>
    decreases n,
{
    if n < 10 {
        seq![digit_char(n)]
    } else {
        decimal_text(n / 10).push(digit_char(n % 10))
    }
}

fn digit_str(d: usize) -> (r: &'static str)
    requires
        d < 10,
    ensures
        r@ == seq![digit_char(d as nat)],
{
    if d == 0 {
        proof { reveal_strlit("0"); }
        "0"
    } else if d == 1 {
        proof { reveal_strlit("1"); }
        "1"
    } else if d == 2 {
        proof { reveal_strlit("2"); }
        "2"
    } else if d == 3 {
        proof { reveal_strlit("3"); }
        "3"
    } else if d == 4 {
        proof { reveal_strlit("4"); }
        "4"
    } else if d == 5 {
        proof { reveal_strlit("5"); }
        "5"
    } else if d == 6 {
        proof { reveal_strlit("6"); }
        "6"
    } else if d == 7 {
        proof { reveal_strlit("7"); }
        "7"
    } else if d == 8 {
        proof { reveal_strlit("8"); }
        "8"
    } else {
        proof { reveal_strlit("9"); }
        "9"
    }
}

/// `prefix` followed by `n` in decimal digits.
fn append_decimal(prefix: String, n: usize) -> (r: String)
    ensures
        r@ == prefix@ + decimal_text(n as nat),
    decreases n,
{
    if n < 10 {
        let mut s = prefix;
        s.append(digit_str(n));
        s
    } else {
        let mut s = append_decimal(prefix, n / 10);
        s.append(digit_str(n % 10));
        assert(s@ =~= prefix@ + decimal_text(n as nat));
        s
    }
}

// ----------------------------------------------------------------------------
// NVML.

/// The parts of a reading: its class, name, temperature text and source.
pub open spec fn reading_parts(r: Reading) -> (Seq<char>, Seq<char>, Seq<char>, Seq<char>) {
    (r.sensor_class@, r.name@, r.celsius@, r.source@)
}

/// The parts of every reading in `readings`.
pub open spec fn readings_parts(readings: Seq<Reading>) -> Seq<(Seq<char>, Seq<char>, Seq<char>, Seq<char>)> {
    readings.map_values(|r: Reading| reading_parts(r))
}

/// The name of the NVML device at `index`: the name NVML gives, else
/// `NVIDIA GPU ` and the index.
pub open spec fn nvml_name(name: Option<String>, index: nat) -> Seq<char> {
    match name {
        Some(n) => n@,
        None => "NVIDIA GPU "@ + decimal_text(index),
    }
}

/// The readings of the NVML devices `devices`, in their order: one GPU
/// reading from `nvml` for each device that gave a temperature (its JSON
/// text, and its name where NVML gives one).
pub open spec fn nvml_readings(devices: Seq<Option<(String, Option<String>)>>) -> Seq<
    (Seq<char>, Seq<char>, Seq<char>, Seq<char>),
>
    decreases devices.len(),
{
    if devices.len() == 0 {
        seq![]
    } else {
        let before = nvml_readings(devices.drop_last());
        match devices.last() {
            Some((celsius, name)) => before.push(
                ("gpu"@, nvml_name(name, (devices.len() - 1) as nat), celsius@, "nvml"@),
            ),
            None => before,
        }
    }
}

/// The notes on NVML: `nvml-unavailable` where NVML could not be asked,
/// `nvml-no-temperature` where no device gave a temperature, none otherwise.
pub open spec fn nvml_notes(devices: Option<Seq<Option<(String, Option<String>)>>>) -> Seq<Seq<char>> {
    match devices {
        None => seq!["nvml-unavailable"@],
        Some(d) => if nvml_readings(d).len() == 0 {
            seq!["nvml-no-temperature"@]
        } else {
            seq![]
        },
    }
}

/// The readings and notes of what NVML reported: `None` where NVML could not
/// be started or counted its devices, else for each device in order its
/// temperature as JSON text and its name, where NVML gave them.
pub fn nvml_report(devices: Option<Vec<Option<(String, Option<String>)>>>) -> (r: (
    Vec<Reading>,
    Vec<String>,
))
    ensures
        readings_parts(r.0@) == match devices {
            Some(d) => nvml_readings(d@),
            None => seq![],
        },
        texts_view(r.1@) == nvml_notes(
            match devices {
                Some(d) => Some(d@),
                None => None,
            },
        ),
{
    match devices {
        None => {
            let notes = vec![String::from_str("nvml-unavailable")];
            proof {
                reveal_strlit("nvml-unavailable");
            }
            assert(texts_view(notes@) =~= seq!["nvml-unavailable"@]);
            let readings: Vec<Reading> = Vec::new();
            assert(readings_parts(readings@) =~= seq![]);
            (readings, notes)
        },
        Some(list) => {
            let mut readings: Vec<Reading> = Vec::new();
            let mut i: usize = 0;
            assert(readings_parts(readings@) =~= seq![]);
            assert(list@.subrange(0, 0) =~= Seq::<Option<(String, Option<String>)>>::empty());
            while i < list.len()
                invariant
                    i <= list@.len(),
                    readings_parts(readings@) == nvml_readings(list@.subrange(0, i as int)),
                decreases list@.len() - i,
            {
                let ghost before = readings@;
                assert(list@.subrange(0, i + 1).drop_last() =~= list@.subrange(0, i as int));
                match &list[i] {
                    Some((celsius, name)) => {
                        let shown = match name {
                            Some(n) => n.clone(),
                            None => append_decimal(String::from_str("NVIDIA GPU "), i),
                        };
                        readings.push(
                            Reading {
                                sensor_class: String::from_str("gpu"),
                                name: shown,
                                celsius: celsius.clone(),
                                source: String::from_str("nvml"),
                            },
                        );
                        assert(readings_parts(readings@) =~= readings_parts(before).push(
                            reading_parts(readings@.last()),
                        ));
                    },
                    None => {},
                }
                i = i + 1;
            }
            assert(list@.subrange(0, list@.len() as int) =~= list@);
            let mut notes: Vec<String> = Vec::new();
            if readings.len() == 0 {
                notes.push(String::from_str("nvml-no-temperature"));
                proof {
                    reveal_strlit("nvml-no-temperature");
                }
            }
            assert(texts_view(notes@) =~= nvml_notes(Some(list@)));
            (readings, notes)
        },
    }
}

// ----------------------------------------------------------------------------
// Hardware-monitor WMI.

/// A sensor row of a hardware-monitor namespace, as text: its type, name,
/// parent and identifier, and its temperature as JSON text where its value
/// is a temperature in range.
pub struct SensorRow {
    pub sensor_type: String,
    pub name: String,
    pub parent: String,
    pub identifier: String,
    pub celsius: Option<String>,
}

/// Whether `row` is a temperature of an NVIDIA GPU: its class is `gpu` and
/// its name, parent or identifier mentions `nvidia` in any case.
pub open spec fn nvidia_gpu_row(row: SensorRow) -> bool {
    &&& row_class_of(row.sensor_type@, row.name@, row.parent@, row.identifier@) == Some("gpu"@)
    &&& contains(sensor_text(row.name@, row.parent@, row.identifier@), "nvidia"@)
}

/// Whether `row` gives a reading: it is a CPU or GPU temperature with a
/// value, and not an NVIDIA GPU where NVML already read the NVIDIA GPUs.
pub open spec fn row_kept(row: SensorRow, nvml_gpus: bool) -> bool {
    &&& row_class_of(row.sensor_type@, row.name@, row.parent@, row.identifier@) is Some
    &&& row.celsius is Some
    &&& !(nvml_gpus && nvidia_gpu_row(row))
}

/// The readings of the rows `rows` of the namespace `namespace`, in order.
pub open spec fn monitor_readings(rows: Seq<SensorRow>, namespace: Seq<char>, nvml_gpus: bool) -> Seq<
    (Seq<char>, Seq<char>, Seq<char>, Seq<char>),
>
    decreases rows.len(),
{
    if rows.len() == 0 {
        seq![]
    } else {
        let before = monitor_readings(rows.drop_last(), namespace, nvml_gpus);
        let row = rows.last();
        if row_kept(row, nvml_gpus) {
            before.push(
                (
                    row_class_of(row.sensor_type@, row.name@, row.parent@, row.identifier@)->0,
                    row.name@,
                    row.celsius->0@,
                    monitor_source_of(namespace),
                ),
            )
        } else {
            before
        }
    }
}

/// The first namespace in `namespaces` that answered, with its rows.
pub open spec fn first_answer(namespaces: Seq<(String, Option<Vec<SensorRow>>)>) -> Option<
    (Seq<char>, Seq<SensorRow>),
>
    decreases namespaces.len(),
{
    if namespaces.len() == 0 {
        None
    } else {
        match namespaces[0].1 {
            Some(rows) => Some((namespaces[0].0@, rows@)),
            None => first_answer(namespaces.drop_first()),
        }
    }
}

fn nvidia_gpu(row: &SensorRow) -> (r: bool)
    ensures
        r == nvidia_gpu_row(*row),
{
    let class = classify_row(
        row.sensor_type.as_str(),
        row.name.as_str(),
        row.parent.as_str(),
        row.identifier.as_str(),
    );
    match class {
        Some(c) => {
            proof {
                reveal_strlit("gpu");
            }
            if !same_text(c, "gpu") {
                return false;
            }
        },
        None => {
            return false;
        },
    }
    let mut joined = chars_of(row.name.as_str());
    joined.push(' ');
    let mut p = chars_of(row.parent.as_str());
    joined.append(&mut p);
    joined.push(' ');
    let mut q = chars_of(row.identifier.as_str());
    joined.append(&mut q);
    assert(joined@ =~= row.name@ + seq![' '] + row.parent@ + seq![' '] + row.identifier@);
    let text = lower_chars(&joined);
    let word = chars_of("nvidia");
    contains_chars(&text, &word)
}

/// The readings and notes of what the hardware-monitor namespaces reported,
/// each namespace with its rows where it answered. The first namespace that
/// answered gives the readings and the later ones serve only as fallbacks:
/// its CPU and GPU temperature rows with a value, in order, from the source of
/// that namespace, without the NVIDIA GPU rows where `nvml_gpus` says that
/// NVML already read the NVIDIA GPUs. The note
/// `hardware-monitor-wmi-unavailable` comes exactly where no namespace
/// answered.
pub fn monitor_report(namespaces: Vec<(String, Option<Vec<SensorRow>>)>, nvml_gpus: bool) -> (r: (
    Vec<Reading>,
    Vec<String>,
))
    ensures
        readings_parts(r.0@) == match first_answer(namespaces@) {
            Some((namespace, rows)) => monitor_readings(rows, namespace, nvml_gpus),
            None => seq![],
        },
        texts_view(r.1@) == if first_answer(namespaces@) is None {
            seq!["hardware-monitor-wmi-unavailable"@]
        } else {
            seq![]
        },
{
    let mut k: usize = 0;
    assert(namespaces@.subrange(0, namespaces@.len() as int) =~= namespaces@);
    while k < namespaces.len()
        invariant
            k <= namespaces@.len(),
            first_answer(namespaces@) == first_answer(namespaces@.subrange(k as int, namespaces@.len() as int)),
        decreases namespaces@.len() - k,
    {
        let ghost rest = namespaces@.subrange(k as int, namespaces@.len() as int);
        assert(rest[0] == namespaces@[k as int]);
        assert(rest.drop_first() =~= namespaces@.subrange(k + 1, namespaces@.len() as int));
        match &namespaces[k].1 {
            Some(rows) => {
                let source = monitor_source(namespaces[k].0.as_str());
                let mut readings: Vec<Reading> = Vec::new();
                let mut i: usize = 0;
                assert(readings_parts(readings@) =~= seq![]);
                assert(rows@.subrange(0, 0) =~= Seq::<SensorRow>::empty());
                while i < rows.len()
                    invariant
                        i <= rows@.len(),
                        source@ == monitor_source_of(namespaces@[k as int].0@),
                        readings_parts(readings@) == monitor_readings(
                            rows@.subrange(0, i as int),
                            namespaces@[k as int].0@,
                            nvml_gpus,
                        ),
                    decreases rows@.len() - i,
                {
                    let ghost before = readings@;
                    assert(rows@.subrange(0, i + 1).drop_last() =~= rows@.subrange(0, i as int));
                    let row = &rows[i];
                    let class = classify_row(
                        row.sensor_type.as_str(),
                        row.name.as_str(),
                        row.parent.as_str(),
                        row.identifier.as_str(),
                    );
                    match class {
                        Some(c) => match &row.celsius {
                            Some(celsius) => {
                                if !(nvml_gpus && nvidia_gpu(row)) {
                                    readings.push(
                                        Reading {
                                            sensor_class: String::from_str(c),
                                            name: row.name.clone(),
                                            celsius: celsius.clone(),
                                            source: String::from_str(source),
                                        },
                                    );
                                    assert(readings_parts(readings@) =~= readings_parts(before).push(
                                        reading_parts(readings@.last()),
                                    ));
                                }
                            },
                            None => {},
                        },
                        None => {},
                    }
                    i = i + 1;
                }
                assert(rows@.subrange(0, rows@.len() as int) =~= rows@);
                let notes: Vec<String> = Vec::new();
                assert(texts_view(notes@) =~= seq![]);
                return (readings, notes);
            },
            None => {},
        }
        k = k + 1;
    }
    let notes = vec![String::from_str("hardware-monitor-wmi-unavailable")];
    proof {
        reveal_strlit("hardware-monitor-wmi-unavailable");
    }
    assert(texts_view(notes@) =~= seq!["hardware-monitor-wmi-unavailable"@]);
    let readings: Vec<Reading> = Vec::new();
    assert(readings_parts(readings@) =~= seq![]);
    (readings, notes)
}

} // verus!
