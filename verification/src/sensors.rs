//! The hardware-temperature service: which sensors count as CPU or GPU
//! temperatures, the order of the readings, and the report built from them.
use vstd::prelude::*;
use crate::json::{field, field_of, field_or_null, fields_deep, items_deep, str_of, Json, JsonV};
use crate::native::MAX_BUFFER_BYTES;
use crate::rpc::lemma_first_field_step;
use crate::text::{
    ascii_lower, chars_of, contains, contains_chars, is_white, lower_all, lower_chars, occurs_at, same_text,
    white,
};

verus! {

// ----------------------------------------------------------------------------
// Classifying sensors.

/// `s` without its leading white space.
pub open spec fn trim_front(s: Seq<char>) -> Seq<char>
    decreases s.len(),
{
    if s.len() > 0 && is_white(s[0]) {
        trim_front(s.drop_first())
    } else {
        s
    }
}

/// `s` without its trailing white space.
pub open spec fn trim_back(s: Seq<char>) -> Seq<char>
    decreases s.len(),
{
    if s.len() > 0 && is_white(s.last()) {
        trim_back(s.drop_last())
    } else {
        s
    }
}

/// `s` without leading and trailing white space (`str::trim`).
pub open spec fn trim_text(s: Seq<char>) -> Seq<char> {
    trim_back(trim_front(s))
}

/// The characters of `s` without leading and trailing white space.
fn trim(s: &Vec<char>) -> (r: Vec<char>)
    ensures
        r@ == trim_text(s@),
{
    let n = s.len();
    let mut lo: usize = 0;
    assert(s@.subrange(0, n as int) =~= s@);
    while lo < n && white(s[lo])
        invariant
            n == s@.len(),
            lo <= n,
            trim_front(s@) == trim_front(s@.subrange(lo as int, n as int)),
        decreases n - lo,
    {
        assert(s@.subrange(lo as int, n as int).drop_first() =~= s@.subrange(lo + 1, n as int));
        lo = lo + 1;
    }
    let ghost front = s@.subrange(lo as int, n as int);
    assert(trim_front(front) == front);
    let mut hi: usize = n;
    assert(front.subrange(0, (hi - lo) as int) =~= front);
    while hi > lo && white(s[hi - 1])
        invariant
            n == s@.len(),
            lo <= hi <= n,
            front == s@.subrange(lo as int, n as int),
            trim_back(front) == trim_back(s@.subrange(lo as int, hi as int)),
        decreases hi,
    {
        assert(s@.subrange(lo as int, hi as int).drop_last() =~= s@.subrange(lo as int, hi - 1));
        hi = hi - 1;
    }
    assert(trim_back(s@.subrange(lo as int, hi as int)) == s@.subrange(lo as int, hi as int));
    let mut out: Vec<char> = Vec::new();
    let mut i: usize = lo;
    while i < hi
        invariant
            lo <= i <= hi <= n,
            n == s@.len(),
            out@ == s@.subrange(lo as int, i as int),
        decreases hi - i,
    {
        out.push(s[i]);
        i = i + 1;
        assert(out@ =~= s@.subrange(lo as int, i as int));
    }
    out
}

/// Whether the characters `v` are those of `s`.
fn chars_equal(v: &Vec<char>, s: &str) -> (r: bool)
    ensures
        r == (v@ == s@),
{
    let n = s.unicode_len();
    if v.len() != n {
        return false;
    }
    let mut i: usize = 0;
    while i < n
        invariant
            n == s@.len(),
            n == v@.len(),
            i <= n,
            forall|j: int| 0 <= j < i ==> v@[j] == s@[j],
        decreases n - i,
    {
        if v[i] != s.get_char(i) {
            return false;
        }
        i = i + 1;
    }
    assert(v@ =~= s@);
    true
}

/// The sensor type that `value` names, once trimmed and in small letters:
/// `temperature` for `temperature` and `temp`, none for anything else.
pub open spec fn sensor_type_of(value: Seq<char>) -> Option<Seq<char>> {
    let t = lower_all(trim_text(value));
    if t == "temperature"@ || t == "temp"@ {
        Some("temperature"@)
    } else {
        None
    }
}

/// The sensor type that `value` names: `temperature` for `temperature` and
/// `temp` in any case of ASCII letters and with any surrounding white space.
pub fn normalize_sensor_type(value: &str) -> (r: Option<&'static str>)
    ensures
        match r {
            Some(s) => sensor_type_of(value@) == Some(s@),
            None => sensor_type_of(value@) is None,
        },
{
    let chars = chars_of(value);
    let trimmed = trim(&chars);
    let lowered = lower_chars(&trimmed);
    if chars_equal(&lowered, "temperature") || chars_equal(&lowered, "temp") {
        Some("temperature")
    } else {
        None
    }
}

/// The text that a sensor is classified by: its name, parent and identifier,
/// separated by single spaces, in small letters.
pub open spec fn sensor_text(name: Seq<char>, parent: Seq<char>, identifier: Seq<char>) -> Seq<char> {
    lower_all(name + seq![' '] + parent + seq![' '] + identifier)
}

/// The class of a sensor whose classification text is `text`: `gpu` where it
/// mentions `gpu`, `graphics`, `radeon` or `nvidia`; otherwise `cpu` where it
/// mentions `cpu`, `package`, `core` or `processor`; otherwise none.
pub open spec fn class_of_text(text: Seq<char>) -> Option<Seq<char>> {
    if contains(text, "gpu"@) || contains(text, "graphics"@) || contains(text, "radeon"@)
        || contains(text, "nvidia"@) {
        Some("gpu"@)
    } else if contains(text, "cpu"@) || contains(text, "package"@) || contains(text, "core"@)
        || contains(text, "processor"@) {
        Some("cpu"@)
    } else {
        None
    }
}

/// The class of the sensor with `name`, `parent` and `identifier`.
pub open spec fn sensor_class_of(name: Seq<char>, parent: Seq<char>, identifier: Seq<char>) -> Option<
    Seq<char>,
> {
    class_of_text(sensor_text(name, parent, identifier))
}

fn mentions(text: &Vec<char>, word: &str) -> (r: bool)
    ensures
        r == contains(text@, word@),
{
    let w = chars_of(word);
    contains_chars(text, &w)
}

/// The class of the sensor with `name`, `parent` and `identifier`: `gpu`,
/// `cpu` or none.
pub fn classify_sensor(name: &str, parent: &str, identifier: &str) -> (r: Option<&'static str>)
    ensures
        match r {
            Some(s) => sensor_class_of(name@, parent@, identifier@) == Some(s@),
            None => sensor_class_of(name@, parent@, identifier@) is None,
        },
{
    let mut joined = chars_of(name);
    joined.push(' ');
    let mut p = chars_of(parent);
    joined.append(&mut p);
    joined.push(' ');
    let mut q = chars_of(identifier);
    joined.append(&mut q);
    assert(joined@ =~= name@ + seq![' '] + parent@ + seq![' '] + identifier@);
    let text = lower_chars(&joined);
    if mentions(&text, "gpu") || mentions(&text, "graphics") || mentions(&text, "radeon") || mentions(
        &text,
        "nvidia",
    ) {
        Some("gpu")
    } else if mentions(&text, "cpu") || mentions(&text, "package") || mentions(&text, "core")
        || mentions(&text, "processor") {
        Some("cpu")
    } else {
        None
    }
}

/// The class of a hardware-monitor sensor row: none unless its type is a
/// temperature, else the class of its name, parent and identifier.
pub open spec fn row_class_of(
    sensor_type: Seq<char>,
    name: Seq<char>,
    parent: Seq<char>,
    identifier: Seq<char>,
) -> Option<Seq<char>> {
    if sensor_type_of(sensor_type) == Some("temperature"@) {
        sensor_class_of(name, parent, identifier)
    } else {
        None
    }
}

/// The class of a hardware-monitor sensor row with `sensor_type`, `name`,
/// `parent` and `identifier`; rows that are not temperatures have none.
pub fn classify_row(sensor_type: &str, name: &str, parent: &str, identifier: &str) -> (r: Option<
    &'static str,
>)
    ensures
        match r {
            Some(s) => row_class_of(sensor_type@, name@, parent@, identifier@) == Some(s@),
            None => row_class_of(sensor_type@, name@, parent@, identifier@) is None,
        },
{
    match normalize_sensor_type(sensor_type) {
        Some(_) => classify_sensor(name, parent, identifier),
        None => None,
    }
}

/// The source of the readings of a hardware-monitor WMI namespace:
/// LibreHardwareMonitor where the namespace mentions `Libre`, else
/// OpenHardwareMonitor.
pub open spec fn monitor_source_of(namespace: Seq<char>) -> Seq<char> {
    if contains(namespace, "Libre"@) {
        "librehardwaremonitor-wmi"@
    } else {
        "openhardwaremonitor-wmi"@
    }
}

/// The source of the readings of the hardware-monitor WMI namespace
/// `namespace`.
pub fn monitor_source(namespace: &str) -> (r: &'static str)
    ensures
        r@ == monitor_source_of(namespace@),
{
    let text = chars_of(namespace);
    if mentions(&text, "Libre") {
        "librehardwaremonitor-wmi"
    } else {
        "openhardwaremonitor-wmi"
    }
}


// ----------------------------------------------------------------------------
// Ordering readings.

/// Whether `x` comes before `y` in the order of `str::cmp`: the first
/// character where they differ is the smaller, or `x` is a proper prefix of
/// `y`. (For text, the order of UTF-8 bytes is the order of code points.)
pub open spec fn text_lt(x: Seq<char>, y: Seq<char>) -> bool
    decreases x.len(),
{
    if x.len() == 0 {
        y.len() > 0
    } else if y.len() == 0 {
        false
    } else if x[0] != y[0] {
        x[0] < y[0]
    } else {
        text_lt(x.drop_first(), y.drop_first())
    }
}

proof fn lemma_text_lt_irreflexive(x: Seq<char>)
    ensures
        !text_lt(x, x),
    decreases x.len(),
{
    if x.len() > 0 {
        lemma_text_lt_irreflexive(x.drop_first());
    }
}

proof fn lemma_text_lt_asymmetric(x: Seq<char>, y: Seq<char>)
    ensures
        text_lt(x, y) ==> !text_lt(y, x),
    decreases x.len(),
{
    if x.len() > 0 && y.len() > 0 && x[0] == y[0] {
        lemma_text_lt_asymmetric(x.drop_first(), y.drop_first());
    }
}

proof fn lemma_text_lt_transitive(x: Seq<char>, y: Seq<char>, z: Seq<char>)
    ensures
        text_lt(x, y) && text_lt(y, z) ==> text_lt(x, z),
    decreases x.len(),
{
    if x.len() > 0 && y.len() > 0 && z.len() > 0 && x[0] == y[0] && y[0] == z[0] {
        lemma_text_lt_transitive(x.drop_first(), y.drop_first(), z.drop_first());
    }
}

proof fn lemma_text_lt_total(x: Seq<char>, y: Seq<char>)
    ensures
        x != y ==> text_lt(x, y) || text_lt(y, x),
    decreases x.len(),
{
    if x.len() > 0 && y.len() > 0 && x[0] == y[0] {
        lemma_text_lt_total(x.drop_first(), y.drop_first());
        if x.drop_first() == y.drop_first() {
            assert(x =~= seq![x[0]] + x.drop_first());
            assert(y =~= seq![y[0]] + y.drop_first());
        }
    } else if x.len() == 0 && y.len() == 0 {
        assert(x =~= y);
    }
}

/// The order of two texts.
#[derive(Clone, Copy, Debug, PartialEq, Eq)]
pub enum TextOrder {
    Before,
    Same,
    After,
}

/// The order of `a` and `b` (`str::cmp`).
pub fn text_order(a: &str, b: &str) -> (r: TextOrder)
    ensures
        r is Before <==> text_lt(a@, b@),
        r is Same <==> a@ == b@,
        r is After <==> text_lt(b@, a@),
{
    proof {
        lemma_text_lt_irreflexive(a@);
        lemma_text_lt_asymmetric(a@, b@);
        lemma_text_lt_total(a@, b@);
    }
    let x = chars_of(a);
    let y = chars_of(b);
    let mut i: usize = 0;
    assert(x@.skip(0) =~= x@);
    assert(y@.skip(0) =~= y@);
    while i < x.len() && i < y.len()
        invariant
            i <= x@.len(),
            i <= y@.len(),
            x@ == a@,
            y@ == b@,
            forall|j: int| 0 <= j < i ==> x@[j] == y@[j],
            text_lt(x@, y@) == text_lt(x@.skip(i as int), y@.skip(i as int)),
            text_lt(y@, x@) == text_lt(y@.skip(i as int), x@.skip(i as int)),
        decreases x@.len() - i,
    {
        if x[i] != y[i] {
            if x[i] < y[i] {
                return TextOrder::Before;
            } else {
                return TextOrder::After;
            }
        }
        assert(x@.skip(i as int).drop_first() =~= x@.skip(i + 1));
        assert(y@.skip(i as int).drop_first() =~= y@.skip(i + 1));
        i = i + 1;
    }
    if x.len() == y.len() {
        assert(x@ =~= y@);
        TextOrder::Same
    } else if x.len() < y.len() {
        TextOrder::Before
    } else {
        TextOrder::After
    }
}

/// One temperature reading: the class of its sensor, its name, the
/// temperature in degrees Celsius as JSON writes the number, and the source
/// it came from.
#[derive(Debug, PartialEq)]
pub struct Reading {
    pub sensor_class: String,
    pub name: String,
    pub celsius: String,
    pub source: String,
}

/// Whether `a` and `b` have the same class, name and source.
pub open spec fn same_key(a: Reading, b: Reading) -> bool {
    &&& a.sensor_class@ == b.sensor_class@
    &&& a.name@ == b.name@
    &&& a.source@ == b.source@
}

/// Whether `a` comes before `b` by class, then name, then source.
pub open spec fn key_lt(a: Reading, b: Reading) -> bool {
    ||| text_lt(a.sensor_class@, b.sensor_class@)
    ||| (a.sensor_class@ == b.sensor_class@ && text_lt(a.name@, b.name@))
    ||| (a.sensor_class@ == b.sensor_class@ && a.name@ == b.name@ && text_lt(a.source@, b.source@))
}

proof fn lemma_key_order(a: Reading, b: Reading, c: Reading)
    ensures
        !key_lt(a, a),
        key_lt(a, b) ==> !key_lt(b, a),
        key_lt(a, b) && key_lt(b, c) ==> key_lt(a, c),
        !same_key(a, b) ==> key_lt(a, b) || key_lt(b, a),
        same_key(a, b) ==> !key_lt(a, b),
{
    lemma_text_lt_irreflexive(a.sensor_class@);
    lemma_text_lt_irreflexive(a.name@);
    lemma_text_lt_irreflexive(a.source@);
    lemma_text_lt_asymmetric(a.sensor_class@, b.sensor_class@);
    lemma_text_lt_asymmetric(a.name@, b.name@);
    lemma_text_lt_asymmetric(a.source@, b.source@);
    lemma_text_lt_transitive(a.sensor_class@, b.sensor_class@, c.sensor_class@);
    lemma_text_lt_transitive(a.name@, b.name@, c.name@);
    lemma_text_lt_transitive(a.source@, b.source@, c.source@);
    lemma_text_lt_total(a.sensor_class@, b.sensor_class@);
    lemma_text_lt_total(a.name@, b.name@);
    lemma_text_lt_total(a.source@, b.source@);
}

/// Whether `a` comes before `b` by class, then name, then source.
pub fn reading_before(a: &Reading, b: &Reading) -> (r: bool)
    ensures
        r == key_lt(*a, *b),
{
    match text_order(a.sensor_class.as_str(), b.sensor_class.as_str()) {
        TextOrder::Before => true,
        TextOrder::After => false,
        TextOrder::Same => match text_order(a.name.as_str(), b.name.as_str()) {
            TextOrder::Before => true,
            TextOrder::After => false,
            TextOrder::Same => match text_order(a.source.as_str(), b.source.as_str()) {
                TextOrder::Before => true,
                _ => false,
            },
        },
    }
}

/// Whether `s` is in order by class, then name, then source.
pub open spec fn sorted_by_key(s: Seq<Reading>) -> bool {
    forall|i: int, j: int| 0 <= i < j < s.len() ==> !key_lt(#[trigger] s[j], #[trigger] s[i])
}

/// Whether `out` holds the readings of `input` rearranged as `perm` says
/// (`out[j]` is `input[perm[j]]`), with readings of the same class, name and
/// source in the order they had in `input`.
pub open spec fn stable_arrangement(out: Seq<Reading>, input: Seq<Reading>, perm: Seq<int>) -> bool {
    &&& out.len() == input.len()
    &&& perm.len() == out.len()
    &&& forall|j: int| 0 <= j < perm.len() ==> 0 <= #[trigger] perm[j] < input.len()
    &&& forall|j: int| 0 <= j < perm.len() ==> #[trigger] out[j] == input[perm[j]]
    &&& forall|i: int, j: int| 0 <= i < j < perm.len() ==> #[trigger] perm[i] != #[trigger] perm[j]
    &&& forall|i: int, j: int|
        0 <= i < j < out.len() && same_key(#[trigger] out[i], #[trigger] out[j]) ==> perm[i] < perm[j]
}

/// Whether `out` is `input` sorted, stably, by class, then name, then source.
pub open spec fn is_stable_sort(out: Seq<Reading>, input: Seq<Reading>) -> bool {
    &&& sorted_by_key(out)
    &&& exists|perm: Seq<int>| stable_arrangement(out, input, perm)
}

proof fn lemma_insert_sorted(out: Seq<Reading>, perm: Seq<int>, item: Reading, k: int, p: int)
    requires
        sorted_by_key(out),
        0 <= p <= out.len(),
        perm.len() == out.len(),
        forall|q: int| 0 <= q < p ==> !key_lt(item, #[trigger] out[q]),
        p < out.len() ==> key_lt(item, out[p]),
        forall|j: int| 0 <= j < perm.len() ==> #[trigger] perm[j] < k,
        forall|i: int, j: int|
            0 <= i < j < out.len() && same_key(#[trigger] out[i], #[trigger] out[j]) ==> perm[i] < perm[j],
    ensures
        sorted_by_key(out.insert(p, item)),
        forall|i: int, j: int|
            0 <= i < j < out.len() + 1 && same_key(
                #[trigger] out.insert(p, item)[i],
                #[trigger] out.insert(p, item)[j],
            ) ==> perm.insert(p, k)[i] < perm.insert(p, k)[j],
{
    let o = out.insert(p, item);
    let pm = perm.insert(p, k);
    assert forall|i: int, j: int| 0 <= i < j < o.len() implies !key_lt(#[trigger] o[j], #[trigger] o[i])
        && (same_key(o[i], o[j]) ==> pm[i] < pm[j]) by {
        if i == p {
            let b = out[j - 1];
            assert(o[j] == b);
            lemma_key_order(item, out[p], b);
            lemma_key_order(out[p], b, item);
            lemma_key_order(b, item, out[p]);
            if j - 1 > p {
                assert(!key_lt(out[j - 1], out[p]));
            }
            assert(key_lt(item, b));
        } else if j == p {
            assert(o[i] == out[i]);
            assert(!key_lt(item, out[i]));
            assert(pm[i] == perm[i]);
        } else {
            let ii = if i < p { i } else { i - 1 };
            let jj = if j < p { j } else { j - 1 };
            assert(o[i] == out[ii]);
            assert(o[j] == out[jj]);
            assert(pm[i] == perm[ii]);
            assert(pm[j] == perm[jj]);
        }
    }
}

proof fn lemma_count_insert(s: Seq<Reading>, p: int, x: Reading, class: Seq<char>)
    requires
        0 <= p <= s.len(),
    ensures
        count_class(s.insert(p, x), class) == count_class(s, class) + if x.sensor_class@ == class {
            1nat
        } else {
            0nat
        },
    decreases s.len(),
{
    if p == s.len() {
        assert(s.insert(p, x).drop_last() =~= s);
    } else {
        assert(s.insert(p, x).drop_last() =~= s.drop_last().insert(p, x));
        lemma_count_insert(s.drop_last(), p, x, class);
    }
}

/// A one-to-one arrangement of `0..n` reaches every index of `0..n`.
proof fn lemma_arrangement_onto(perm: Seq<int>, n: int, k: int)
    requires
        perm.len() == n,
        forall|j: int| 0 <= j < n ==> 0 <= #[trigger] perm[j] < n,
        forall|i: int, j: int| 0 <= i < j < n ==> #[trigger] perm[i] != #[trigger] perm[j],
        0 <= k < n,
    ensures
        exists|j: int| 0 <= j < n && perm[j] == k,
{
    let dom = vstd::set_lib::set_int_range(0, n);
    let f = |j: int| perm[j];
    let image = dom.map(f);
    vstd::set_lib::lemma_int_range(0, n);
    assert(vstd::relations::injective_on(f, dom)) by {
        assert forall|x: int, y: int| dom.contains(x) && dom.contains(y) && #[trigger] f(x) == #[trigger] f(
            y,
        ) implies x == y by {
            if x < y {
                assert(perm[x] != perm[y]);
            } else if y < x {
                assert(perm[y] != perm[x]);
            }
        }
    }
    vstd::set_lib::lemma_map_size(dom, image, f);
    assert(image.subset_of(dom)) by {
        assert forall|v: int| image.contains(v) implies dom.contains(v) by {
            let w = choose|w: int| dom.contains(w) && f(w) == v;
            assert(0 <= perm[w] < n);
        }
    }
    vstd::set_lib::lemma_subset_equality(image, dom);
    assert(dom.contains(k));
    assert(image.contains(k));
    let w = choose|w: int| dom.contains(w) && f(w) == k;
    assert(0 <= w < n && perm[w] == k);
}

/// Taking out of a stable sort the reading that came last in the input
/// leaves a stable sort of the rest of the input, and the reading sat after
/// exactly those readings that do not come after it.
proof fn lemma_take_out_last(out: Seq<Reading>, input: Seq<Reading>, perm: Seq<int>) -> (i: int)
    requires
        input.len() > 0,
        sorted_by_key(out),
        stable_arrangement(out, input, perm),
    ensures
        0 <= i < out.len(),
        out[i] == input.last(),
        out == out.remove(i).insert(i, input.last()),
        is_stable_sort(out.remove(i), input.drop_last()),
        forall|q: int| 0 <= q < i ==> !key_lt(input.last(), #[trigger] out.remove(i)[q]),
        forall|q: int| i <= q < out.len() - 1 ==> key_lt(input.last(), #[trigger] out.remove(i)[q]),
{
    let n = input.len() as int;
    lemma_arrangement_onto(perm, n, n - 1);
    let i = choose|j: int| 0 <= j < n && perm[j] == n - 1;
    let x = input.last();
    let rest = out.remove(i);
    let prest = perm.remove(i);
    let shorter = input.drop_last();
    assert(out[i] == x);
    assert(out =~= rest.insert(i, x));
    assert forall|j: int| 0 <= j < prest.len() implies 0 <= #[trigger] prest[j] < n - 1 by {
        let jj = if j < i { j } else { j + 1 };
        assert(prest[j] == perm[jj]);
        if jj < i {
            assert(perm[jj] != perm[i]);
        } else {
            assert(perm[i] != perm[jj]);
        }
    }
    assert forall|j: int| 0 <= j < prest.len() implies #[trigger] rest[j] == shorter[prest[j]] by {
        let jj = if j < i { j } else { j + 1 };
        assert(prest[j] == perm[jj]);
        assert(rest[j] == out[jj]);
    }
    assert forall|a: int, b: int| 0 <= a < b < prest.len() implies #[trigger] prest[a] != #[trigger] prest[b] by {
        let aa = if a < i { a } else { a + 1 };
        let bb = if b < i { b } else { b + 1 };
        assert(prest[a] == perm[aa]);
        assert(prest[b] == perm[bb]);
    }
    assert forall|a: int, b: int|
        0 <= a < b < rest.len() && same_key(#[trigger] rest[a], #[trigger] rest[b]) implies prest[a]
        < prest[b] by {
        let aa = if a < i { a } else { a + 1 };
        let bb = if b < i { b } else { b + 1 };
        assert(rest[a] == out[aa]);
        assert(rest[b] == out[bb]);
        assert(prest[a] == perm[aa]);
        assert(prest[b] == perm[bb]);
    }
    assert(stable_arrangement(rest, shorter, prest));
    assert forall|a: int, b: int| 0 <= a < b < rest.len() implies !key_lt(#[trigger] rest[b], #[trigger] rest[a]) by {
        let aa = if a < i { a } else { a + 1 };
        let bb = if b < i { b } else { b + 1 };
        assert(rest[a] == out[aa]);
        assert(rest[b] == out[bb]);
    }
    assert forall|q: int| 0 <= q < i implies !key_lt(x, #[trigger] rest[q]) by {
        assert(rest[q] == out[q]);
        assert(!key_lt(out[i], out[q]));
    }
    assert forall|q: int| i <= q < out.len() - 1 implies key_lt(x, #[trigger] rest[q]) by {
        assert(rest[q] == out[q + 1]);
        assert(!key_lt(out[q + 1], out[i]));
        if same_key(out[i], out[q + 1]) {
            assert(perm[i] < perm[q + 1]);
        }
        lemma_key_order(x, out[q + 1], x);
    }
    i
}

/// Sorting readings stably by class, name and source has one outcome: two
/// stable sorts of the same readings are the same sequence.
pub proof fn law_stable_sort_unique(a: Seq<Reading>, b: Seq<Reading>, input: Seq<Reading>)
    requires
        is_stable_sort(a, input),
        is_stable_sort(b, input),
    ensures
        a == b,
    decreases input.len(),
{
    let pa = choose|perm: Seq<int>| stable_arrangement(a, input, perm);
    let pb = choose|perm: Seq<int>| stable_arrangement(b, input, perm);
    if input.len() == 0 {
        assert(a =~= b);
    } else {
        let x = input.last();
        let i = lemma_take_out_last(a, input, pa);
        let j = lemma_take_out_last(b, input, pb);
        law_stable_sort_unique(a.remove(i), b.remove(j), input.drop_last());
        let rest = a.remove(i);
        if i < j {
            assert(key_lt(x, a.remove(i)[i]));
            assert(!key_lt(x, b.remove(j)[i]));
        } else if j < i {
            assert(key_lt(x, b.remove(j)[j]));
            assert(!key_lt(x, a.remove(i)[j]));
        }
        assert(a == rest.insert(i, x));
        assert(b == rest.insert(j, x));
    }
}

/// `readings` sorted, stably, by class, then name, then source (as
/// `slice::sort_by` with that comparison does).
pub fn sort_readings(readings: Vec<Reading>) -> (r: Vec<Reading>)
    ensures
        is_stable_sort(r@, readings@),
        forall|class: Seq<char>| #[trigger] count_class(r@, class) == count_class(readings@, class),
{
    let ghost input = readings@;
    let n = readings.len();
    let mut rest = readings;
    let mut out: Vec<Reading> = Vec::new();
    let ghost mut perm: Seq<int> = Seq::empty();
    assert(input.subrange(0, n as int) =~= input);
    while rest.len() > 0
        invariant
            n == input.len(),
            rest@.len() <= n,
            rest@ == input.subrange(n - rest@.len(), n as int),
            out@.len() == n - rest@.len(),
            perm.len() == out@.len(),
            forall|j: int| 0 <= j < perm.len() ==> 0 <= #[trigger] perm[j] < n - rest@.len(),
            forall|j: int| 0 <= j < perm.len() ==> #[trigger] out@[j] == input[perm[j]],
            forall|i: int, j: int| 0 <= i < j < perm.len() ==> #[trigger] perm[i] != #[trigger] perm[j],
            forall|i: int, j: int|
                0 <= i < j < out@.len() && same_key(#[trigger] out@[i], #[trigger] out@[j]) ==> perm[i]
                    < perm[j],
            sorted_by_key(out@),
            forall|class: Seq<char>|
                #[trigger] count_class(out@, class) == count_class(
                    input.take(n - rest@.len()),
                    class,
                ),
        decreases rest@.len(),
    {
        let ghost k: int = n - rest@.len();
        let item = rest.remove(0);
        assert(rest@ =~= input.subrange(n - rest@.len(), n as int));
        let mut p: usize = 0;
        while p < out.len() && !reading_before(&item, &out[p])
            invariant
                p <= out@.len(),
                forall|q: int| 0 <= q < p ==> !key_lt(item, #[trigger] out@[q]),
            decreases out@.len() - p,
        {
            p = p + 1;
        }
        proof {
            lemma_insert_sorted(out@, perm, item, k, p as int);
        }
        let ghost old_out = out@;
        let ghost old_perm = perm;
        out.insert(p, item);
        proof {
            perm = perm.insert(p as int, k);
            assert(out@ == old_out.insert(p as int, item));
            assert forall|j: int| 0 <= j < perm.len() implies 0 <= #[trigger] perm[j] < n - rest@.len()
                && out@[j] == input[perm[j]] by {
                if j < p {
                    assert(perm[j] == old_perm[j]);
                } else if j > p {
                    assert(perm[j] == old_perm[j - 1]);
                }
            }
            assert forall|class: Seq<char>| #[trigger] count_class(out@, class) == count_class(
                input.take(n - rest@.len()),
                class,
            ) by {
                lemma_count_insert(old_out, p as int, item, class);
                assert(input.take(n - rest@.len()).drop_last() =~= input.take(k));
            }
            assert forall|i: int, j: int| 0 <= i < j < perm.len() implies #[trigger] perm[i]
                != #[trigger] perm[j] by {
                if i != p && j != p {
                    let ii = if i < p { i } else { i - 1 };
                    let jj = if j < p { j } else { j - 1 };
                    assert(perm[i] == old_perm[ii]);
                    assert(perm[j] == old_perm[jj]);
                } else if i == p {
                    assert(perm[j] == old_perm[j - 1]);
                } else {
                    assert(perm[i] == old_perm[i]);
                }
            }
        }
    }
    assert(stable_arrangement(out@, input, perm));
    assert(input.take(n as int) =~= input);
    out
}


// ----------------------------------------------------------------------------
// The report.

/// A reading as the report writes it.
pub open spec fn reading_v(r: Reading) -> JsonV {
    JsonV::Object(
        seq![
            ("class"@, JsonV::Str(r.sensor_class@)),
            ("name"@, JsonV::Str(r.name@)),
            ("temperatureCelsius"@, JsonV::Decimal(r.celsius@)),
            ("source"@, JsonV::Str(r.source@)),
        ],
    )
}

/// The number of readings in `s` of the class `class`.
pub open spec fn count_class(s: Seq<Reading>, class: Seq<char>) -> nat
    decreases s.len(),
{
    if s.len() == 0 {
        0
    } else {
        count_class(s.drop_last(), class) + if s.last().sensor_class@ == class {
            1nat
        } else {
            0nat
        }
    }
}

/// What the report says it cannot do.
pub open spec fn limitations_v() -> JsonV {
    JsonV::Array(
        seq![
            JsonV::Str("Windows does not expose a universal CPU core temperature API."@),
            JsonV::Str(
                "CPU and non-NVIDIA GPU readings require LibreHardwareMonitor or OpenHardwareMonitor WMI sensors."@,
            ),
            JsonV::Str(
                "ACPI thermal zones are reported separately and are not labeled as CPU core temperatures."@,
            ),
        ],
    )
}

/// The report of the readings `sorted` (already in order) and of the notes
/// `sources` on where readings could not be had.
pub open spec fn report_v(sorted: Seq<Reading>, sources: Seq<Seq<char>>) -> JsonV {
    let cpu = count_class(sorted, "cpu"@);
    let gpu = count_class(sorted, "gpu"@);
    JsonV::Object(
        seq![
            ("available"@, JsonV::Bool(cpu > 0 || gpu > 0)),
            ("cpuTemperatureAvailable"@, JsonV::Bool(cpu > 0)),
            ("gpuTemperatureAvailable"@, JsonV::Bool(gpu > 0)),
            ("cpuSensorCount"@, JsonV::Int(cpu as int)),
            ("gpuSensorCount"@, JsonV::Int(gpu as int)),
            ("sensorCount"@, JsonV::Int(sorted.len() as int)),
            ("readings"@, JsonV::Array(Seq::new(sorted.len(), |i: int| reading_v(sorted[i])))),
            ("sources"@, JsonV::Array(Seq::new(sources.len(), |i: int| JsonV::Str(sources[i])))),
            ("limitations"@, limitations_v()),
        ],
    )
}

/// The views of `texts`.
pub open spec fn texts_view(texts: Seq<String>) -> Seq<Seq<char>> {
    Seq::new(texts.len(), |i: int| texts[i]@)
}

fn reading_json(r: &Reading) -> (j: Json)
    ensures
        j.deep() == reading_v(*r),
{
    let fields = vec![
        field("class", Json::Str(r.sensor_class.clone())),
        field("name", Json::Str(r.name.clone())),
        field("temperatureCelsius", Json::Decimal(r.celsius.clone())),
        field("source", Json::Str(r.source.clone())),
    ];
    let j = Json::object(fields);
    assert(fields_deep(fields@) =~= reading_v(*r)->Object_0);
    j
}

/// The number of readings in `s` of the class `class`.
fn count_of_class(s: &Vec<Reading>, class: &str) -> (r: usize)
    ensures
        r == count_class(s@, class@),
{
    let mut count: usize = 0;
    let mut i: usize = 0;
    assert(s@.take(0) =~= Seq::<Reading>::empty());
    while i < s.len()
        invariant
            i <= s@.len(),
            count == count_class(s@.take(i as int), class@),
            count <= i,
        decreases s@.len() - i,
    {
        assert(s@.take(i + 1).drop_last() =~= s@.take(i as int));
        if same_text(s[i].sensor_class.as_str(), class) {
            count = count + 1;
        }
        i = i + 1;
    }
    assert(s@.take(s@.len() as int) =~= s@);
    count
}

fn limitations() -> (r: Json)
    ensures
        r.deep() == limitations_v(),
{
    let items = vec![
        Json::text("Windows does not expose a universal CPU core temperature API."),
        Json::text(
            "CPU and non-NVIDIA GPU readings require LibreHardwareMonitor or OpenHardwareMonitor WMI sensors.",
        ),
        Json::text(
            "ACPI thermal zones are reported separately and are not labeled as CPU core temperatures.",
        ),
    ];
    let r = Json::array(items);
    assert(items_deep(items@) =~= limitations_v()->Array_0);
    r
}

/// The report of `readings`, sorted by class, name and source, and of the
/// notes `sources`: whether CPU and GPU temperatures are available, how many
/// readings of each there are, the readings themselves and what the report
/// cannot do.
pub fn temperature_report(readings: Vec<Reading>, sources: &Vec<String>) -> (r: Json)
    ensures
        exists|sorted: Seq<Reading>|
            {
                &&& is_stable_sort(sorted, readings@)
                &&& forall|class: Seq<char>| #[trigger] count_class(sorted, class) == count_class(readings@, class)
                &&& #[trigger] report_v(sorted, texts_view(sources@)) == r.deep()
            },
{
    let sorted = sort_readings(readings);
    let cpu = count_of_class(&sorted, "cpu");
    let gpu = count_of_class(&sorted, "gpu");
    let mut items: Vec<Json> = Vec::new();
    let mut i: usize = 0;
    while i < sorted.len()
        invariant
            i <= sorted@.len(),
            items@.len() == i,
            forall|j: int| 0 <= j < i ==> (#[trigger] items@[j]).deep() == reading_v(sorted@[j]),
        decreases sorted@.len() - i,
    {
        items.push(reading_json(&sorted[i]));
        i = i + 1;
    }
    let listed = Json::array(items);
    assert(items_deep(items@) =~= Seq::new(sorted@.len(), |i: int| reading_v(sorted@[i])));
    let mut notes: Vec<Json> = Vec::new();
    let mut k: usize = 0;
    while k < sources.len()
        invariant
            k <= sources@.len(),
            notes@.len() == k,
            forall|j: int| 0 <= j < k ==> (#[trigger] notes@[j]).deep() == JsonV::Str(sources@[j]@),
        decreases sources@.len() - k,
    {
        notes.push(Json::Str(sources[k].clone()));
        k = k + 1;
    }
    let noted = Json::array(notes);
    assert(items_deep(notes@) =~= Seq::new(
        sources@.len(),
        |i: int| JsonV::Str(texts_view(sources@)[i]),
    ));
    let fields = vec![
        field("available", Json::Bool(cpu > 0 || gpu > 0)),
        field("cpuTemperatureAvailable", Json::Bool(cpu > 0)),
        field("gpuTemperatureAvailable", Json::Bool(gpu > 0)),
        field("cpuSensorCount", Json::Uint(cpu as u64)),
        field("gpuSensorCount", Json::Uint(gpu as u64)),
        field("sensorCount", Json::Uint(sorted.len() as u64)),
        field("readings", listed),
        field("sources", noted),
        field("limitations", limitations()),
    ];
    let r = Json::object(fields);
    assert(fields_deep(fields@) =~= report_v(sorted@, texts_view(sources@))->Object_0);
    r
}

/// Whether a reading in `readings` came from `source`.
pub fn any_from_source(readings: &Vec<Reading>, source: &str) -> (r: bool)
    ensures
        r == exists|i: int| 0 <= i < readings@.len() && (#[trigger] readings@[i]).source@ == source@,
{
    let mut i: usize = 0;
    while i < readings.len()
        invariant
            i <= readings@.len(),
            forall|j: int| 0 <= j < i ==> (#[trigger] readings@[j]).source@ != source@,
        decreases readings@.len() - i,
    {
        if same_text(readings[i].source.as_str(), source) {
            return true;
        }
        i = i + 1;
    }
    false
}

// ----------------------------------------------------------------------------
// Calls.

/// The outcome of a call: a status code with its reply, or the request to
/// read the temperatures and answer with `invoke_reply`.
#[derive(Debug, PartialEq)]
pub enum CallOutcome {
    Reply { code: i32, reply: Json },
    CollectTemperatures,
}

/// `{"ok": false, "error": message}`.
pub open spec fn failure_v(message: Seq<char>) -> JsonV {
    JsonV::Object(seq![("ok"@, JsonV::Bool(false)), ("error"@, JsonV::Str(message))])
}

/// The capabilities that the service declares: `hardware.temperature`, with
/// no input.
pub open spec fn capabilities_v() -> JsonV {
    JsonV::Object(
        seq![
            (
                "capabilities"@,
                JsonV::Array(
                    seq![
                        JsonV::Object(
                            seq![
                                ("name"@, JsonV::Str("hardware.temperature"@)),
                                (
                                    "description"@,
                                    JsonV::Str("读取 CPU、GPU 和系统热区温度，并返回每个读数的数据来源。"@),
                                ),
                                (
                                    "inputSchema"@,
                                    JsonV::Object(
                                        seq![
                                            ("type"@, JsonV::Str("object"@)),
                                            ("additionalProperties"@, JsonV::Bool(false)),
                                            ("properties"@, JsonV::Object(seq![])),
                                        ],
                                    ),
                                ),
                            ],
                        ),
                    ],
                ),
            ),
        ],
    )
}

/// Whether a call with `request` asks for the temperatures.
pub open spec fn asks_temperatures(request: JsonV) -> bool {
    &&& str_of(field_of(request, "method"@)) == Some("invoke"@)
    &&& str_of(field_of(request, "capability"@)) == Some("hardware.temperature"@)
}

/// The status code and reply of a call whose input has `input_len` bytes and
/// parses as `request` (`None` where it is not JSON); `None` where the call
/// asks for the temperatures.
pub open spec fn call_outcome(input_len: int, request: Option<JsonV>) -> Option<(int, JsonV)> {
    if input_len > MAX_BUFFER_BYTES {
        Some((2, failure_v("input exceeds 1 MiB"@)))
    } else {
        match request {
            None => Some((3, failure_v("invalid JSON"@))),
            Some(q) => {
                let method = str_of(field_of(q, "method"@));
                if method == Some("health"@) {
                    Some(
                        (
                            0,
                            JsonV::Object(
                                seq![
                                    ("ok"@, JsonV::Bool(true)),
                                    ("message"@, JsonV::Str("hardware temperature ready"@)),
                                ],
                            ),
                        ),
                    )
                } else if method == Some("capabilities"@) {
                    Some((0, capabilities_v()))
                } else if asks_temperatures(q) {
                    None
                } else if method == Some("invoke"@) {
                    Some((0, failure_v("unknown capability"@)))
                } else {
                    Some((0, failure_v("unknown method"@)))
                }
            },
        }
    }
}

fn failure(message: &str) -> (r: Json)
    ensures
        r.deep() == failure_v(message@),
{
    let fields = vec![field("ok", Json::Bool(false)), field("error", Json::text(message))];
    let r = Json::object(fields);
    assert(fields_deep(fields@) =~= failure_v(message@)->Object_0);
    r
}

/// The capabilities that the service declares.
pub fn capabilities() -> (r: Json)
    ensures
        r.deep() == capabilities_v(),
{
    let props = Json::object(vec![]);
    assert(fields_deep(Seq::empty()) =~= Seq::<(Seq<char>, JsonV)>::empty());
    let schema_fields = vec![
        field("type", Json::text("object")),
        field("additionalProperties", Json::Bool(false)),
        field("properties", props),
    ];
    let schema = Json::object(schema_fields);
    let ghost entry = capabilities_v()->Object_0[0].1->Array_0[0];
    assert(fields_deep(schema_fields@) =~= entry->Object_0[2].1->Object_0);
    let entry_fields = vec![
        field("name", Json::text("hardware.temperature")),
        field("description", Json::text("读取 CPU、GPU 和系统热区温度，并返回每个读数的数据来源。")),
        field("inputSchema", schema),
    ];
    let e = Json::object(entry_fields);
    assert(fields_deep(entry_fields@) =~= entry->Object_0);
    let items = vec![e];
    let list = Json::array(items);
    assert(items_deep(items@) =~= seq![entry]);
    let fields = vec![field("capabilities", list)];
    let r = Json::object(fields);
    assert(fields_deep(fields@) =~= capabilities_v()->Object_0);
    r
}

fn method_is(request: &Json, key: &str, expected: &str) -> (r: bool)
    ensures
        r == (str_of(field_of(request.deep(), key@)) == Some(expected@)),
{
    match request.get(key) {
        Some(v) => match v.as_str() {
            Some(s) => same_text(s, expected),
            None => false,
        },
        None => false,
    }
}

/// The outcome of a call whose input has `input_len` bytes and parses as
/// `request` (`None` where it is not JSON): an input over 1 MiB gives status
/// 2, one that is not JSON status 3, and otherwise the reply has status 0.
pub fn call(input_len: usize, request: Option<Json>) -> (r: CallOutcome)
    ensures
        match r {
            CallOutcome::Reply { code, reply } => call_outcome(
                input_len as int,
                match request {
                    Some(q) => Some(q.deep()),
                    None => None,
                },
            ) == Some((code as int, reply.deep())),
            CallOutcome::CollectTemperatures => call_outcome(
                input_len as int,
                match request {
                    Some(q) => Some(q.deep()),
                    None => None,
                },
            ) is None,
        },
{
    if input_len as u64 > MAX_BUFFER_BYTES {
        return CallOutcome::Reply { code: 2, reply: failure("input exceeds 1 MiB") };
    }
    match request {
        None => CallOutcome::Reply { code: 3, reply: failure("invalid JSON") },
        Some(q) => {
            if method_is(&q, "method", "health") {
                let fields = vec![field("ok", Json::Bool(true)), field("message", Json::text("hardware temperature ready"))];
                let reply = Json::object(fields);
                assert(fields_deep(fields@) =~= seq![
                    ("ok"@, JsonV::Bool(true)),
                    ("message"@, JsonV::Str("hardware temperature ready"@)),
                ]);
                CallOutcome::Reply { code: 0, reply }
            } else if method_is(&q, "method", "capabilities") {
                CallOutcome::Reply { code: 0, reply: capabilities() }
            } else if method_is(&q, "method", "invoke") {
                if method_is(&q, "capability", "hardware.temperature") {
                    CallOutcome::CollectTemperatures
                } else {
                    CallOutcome::Reply { code: 0, reply: failure("unknown capability") }
                }
            } else {
                proof {
                    reveal_strlit("invoke");
                    reveal_strlit("health");
                    reveal_strlit("capabilities");
                }
                CallOutcome::Reply { code: 0, reply: failure("unknown method") }
            }
        },
    }
}

/// The reply to a call that asked for the temperatures, with their `report`.
pub fn invoke_reply(report: Json) -> (r: Json)
    ensures
        r.deep() == JsonV::Object(seq![("ok"@, JsonV::Bool(true)), ("value"@, report.deep())]),
{
    let fields = vec![field("ok", Json::Bool(true)), field("value", report)];
    let r = Json::object(fields);
    assert(fields_deep(fields@) =~= seq![("ok"@, JsonV::Bool(true)), ("value"@, report.deep())]);
    r
}


// ----------------------------------------------------------------------------
// Laws.

proof fn lemma_lower_char(c: char)
    ensures
        ascii_lower(ascii_lower(c)) == ascii_lower(c),
        is_white(ascii_lower(c)) == is_white(c),
{
}

proof fn lemma_lower_all_idempotent(s: Seq<char>)
    ensures
        lower_all(lower_all(s)) == lower_all(s),
{
    assert forall|i: int| 0 <= i < s.len() implies lower_all(lower_all(s))[i] == lower_all(s)[i] by {
        lemma_lower_char(s[i]);
    }
    assert(lower_all(lower_all(s)) =~= lower_all(s));
}

proof fn lemma_trim_front_lower(s: Seq<char>)
    ensures
        trim_front(lower_all(s)) == lower_all(trim_front(s)),
    decreases s.len(),
{
    if s.len() > 0 {
        lemma_lower_char(s[0]);
        assert(lower_all(s).drop_first() =~= lower_all(s.drop_first()));
        lemma_trim_front_lower(s.drop_first());
    }
}

proof fn lemma_trim_back_lower(s: Seq<char>)
    ensures
        trim_back(lower_all(s)) == lower_all(trim_back(s)),
    decreases s.len(),
{
    if s.len() > 0 {
        lemma_lower_char(s.last());
        assert(lower_all(s).drop_last() =~= lower_all(s.drop_last()));
        lemma_trim_back_lower(s.drop_last());
    }
}

/// The sensor type that a text names does not depend on the case of its
/// ASCII letters.
pub proof fn law_sensor_type_ignores_case(value: Seq<char>)
    ensures
        sensor_type_of(lower_all(value)) == sensor_type_of(value),
{
    lemma_trim_front_lower(value);
    lemma_trim_back_lower(trim_front(value));
    lemma_lower_all_idempotent(trim_text(value));
}

/// The class of a sensor does not depend on the case of the ASCII letters
/// of its name, parent and identifier.
pub proof fn law_sensor_class_ignores_case(name: Seq<char>, parent: Seq<char>, identifier: Seq<char>)
    ensures
        sensor_class_of(lower_all(name), lower_all(parent), lower_all(identifier)) == sensor_class_of(
            name,
            parent,
            identifier,
        ),
{
    let a = sensor_text(lower_all(name), lower_all(parent), lower_all(identifier));
    let b = sensor_text(name, parent, identifier);
    let ja = lower_all(name) + seq![' '] + lower_all(parent) + seq![' '] + lower_all(identifier);
    let jb = name + seq![' '] + parent + seq![' '] + identifier;
    assert(ja =~= lower_all(jb));
    lemma_lower_all_idempotent(jb);
    assert(a == b);
}

/// Whether `word` has no space in it.
pub open spec fn spaceless(word: Seq<char>) -> bool {
    forall|i: int| 0 <= i < word.len() ==> word[i] != ' '
}

/// A word with no space occurs in two texts joined by a space exactly where
/// it occurs in one of them.
proof fn lemma_contains_joined(x: Seq<char>, y: Seq<char>, word: Seq<char>)
    requires
        spaceless(word),
        word.len() > 0,
    ensures
        contains(x + seq![' '] + y, word) <==> (contains(x, word) || contains(y, word)),
{
    let j = x + seq![' '] + y;
    if contains(x, word) {
        let at = choose|at: int| occurs_at(x, word, at);
        assert(j.subrange(at, at + word.len()) =~= x.subrange(at, at + word.len()));
        assert(occurs_at(j, word, at));
    }
    if contains(y, word) {
        let at = choose|at: int| occurs_at(y, word, at);
        let b = x.len() + 1 + at;
        assert(j.subrange(b, b + word.len()) =~= y.subrange(at, at + word.len()));
        assert(occurs_at(j, word, b));
    }
    if contains(j, word) {
        let at = choose|at: int| occurs_at(j, word, at);
        if at + word.len() <= x.len() {
            assert(x.subrange(at, at + word.len()) =~= j.subrange(at, at + word.len()));
            assert(occurs_at(x, word, at));
        } else if at >= x.len() + 1 {
            let b = at - x.len() - 1;
            assert(y.subrange(b, b + word.len()) =~= j.subrange(at, at + word.len()));
            assert(occurs_at(y, word, b));
        } else {
            let k = x.len() - at;
            assert(j.subrange(at, at + word.len())[k] == j[x.len() as int]);
            assert(word[k] == ' ');
        }
    }
}

/// A spaceless word occurs in the classification text exactly where it
/// occurs in the name, parent or identifier, each in small letters.
proof fn lemma_sensor_text_mentions(name: Seq<char>, parent: Seq<char>, identifier: Seq<char>, word: Seq<char>)
    requires
        spaceless(word),
        word.len() > 0,
    ensures
        contains(sensor_text(name, parent, identifier), word) <==> (contains(lower_all(name), word)
            || contains(lower_all(parent), word) || contains(lower_all(identifier), word)),
{
    let front = lower_all(name) + seq![' '] + lower_all(parent);
    assert(sensor_text(name, parent, identifier) =~= front + seq![' '] + lower_all(identifier));
    lemma_contains_joined(front, lower_all(identifier), word);
    lemma_contains_joined(lower_all(name), lower_all(parent), word);
}

proof fn lemma_keywords_spaceless()
    ensures
        spaceless("gpu"@) && "gpu"@.len() > 0,
        spaceless("graphics"@) && "graphics"@.len() > 0,
        spaceless("radeon"@) && "radeon"@.len() > 0,
        spaceless("nvidia"@) && "nvidia"@.len() > 0,
        spaceless("cpu"@) && "cpu"@.len() > 0,
        spaceless("package"@) && "package"@.len() > 0,
        spaceless("core"@) && "core"@.len() > 0,
        spaceless("processor"@) && "processor"@.len() > 0,
{
    reveal_strlit("gpu");
    reveal_strlit("graphics");
    reveal_strlit("radeon");
    reveal_strlit("nvidia");
    reveal_strlit("cpu");
    reveal_strlit("package");
    reveal_strlit("core");
    reveal_strlit("processor");
}

/// The class of a sensor is none, `cpu` or `gpu`; it does not depend on
/// which of the name, parent and identifier holds a keyword, nor on the case
/// of their ASCII letters.
pub proof fn law_sensor_class_symmetric(
    name: Seq<char>,
    parent: Seq<char>,
    identifier: Seq<char>,
    other_name: Seq<char>,
)
    requires
        lower_all(other_name) == lower_all(name),
    ensures
        sensor_class_of(name, parent, identifier) is None || sensor_class_of(name, parent, identifier)
            == Some("cpu"@) || sensor_class_of(name, parent, identifier) == Some("gpu"@),
        sensor_class_of(name, parent, identifier) == sensor_class_of(parent, identifier, name),
        sensor_class_of(name, parent, identifier) == sensor_class_of(parent, name, identifier),
        sensor_class_of(name, parent, identifier) == sensor_class_of(other_name, parent, identifier),
{
    lemma_keywords_spaceless();
    lemma_sensor_text_mentions(name, parent, identifier, "gpu"@);
    lemma_sensor_text_mentions(name, parent, identifier, "graphics"@);
    lemma_sensor_text_mentions(name, parent, identifier, "radeon"@);
    lemma_sensor_text_mentions(name, parent, identifier, "nvidia"@);
    lemma_sensor_text_mentions(name, parent, identifier, "cpu"@);
    lemma_sensor_text_mentions(name, parent, identifier, "package"@);
    lemma_sensor_text_mentions(name, parent, identifier, "core"@);
    lemma_sensor_text_mentions(name, parent, identifier, "processor"@);
    lemma_sensor_text_mentions(parent, identifier, name, "gpu"@);
    lemma_sensor_text_mentions(parent, identifier, name, "graphics"@);
    lemma_sensor_text_mentions(parent, identifier, name, "radeon"@);
    lemma_sensor_text_mentions(parent, identifier, name, "nvidia"@);
    lemma_sensor_text_mentions(parent, identifier, name, "cpu"@);
    lemma_sensor_text_mentions(parent, identifier, name, "package"@);
    lemma_sensor_text_mentions(parent, identifier, name, "core"@);
    lemma_sensor_text_mentions(parent, identifier, name, "processor"@);
    lemma_sensor_text_mentions(parent, name, identifier, "gpu"@);
    lemma_sensor_text_mentions(parent, name, identifier, "graphics"@);
    lemma_sensor_text_mentions(parent, name, identifier, "radeon"@);
    lemma_sensor_text_mentions(parent, name, identifier, "nvidia"@);
    lemma_sensor_text_mentions(parent, name, identifier, "cpu"@);
    lemma_sensor_text_mentions(parent, name, identifier, "package"@);
    lemma_sensor_text_mentions(parent, name, identifier, "core"@);
    lemma_sensor_text_mentions(parent, name, identifier, "processor"@);
    assert(sensor_text(other_name, parent, identifier) =~= sensor_text(name, parent, identifier)) by {
        let a = other_name + seq![' '] + parent + seq![' '] + identifier;
        let b = name + seq![' '] + parent + seq![' '] + identifier;
        assert(lower_all(a) =~= lower_all(other_name) + seq![' '] + lower_all(parent) + seq![' ']
            + lower_all(identifier));
        assert(lower_all(b) =~= lower_all(name) + seq![' '] + lower_all(parent) + seq![' ']
            + lower_all(identifier));
    }
}

/// A sensor whose text mentions a GPU word is a GPU sensor, whatever CPU
/// words it mentions too.
pub proof fn law_gpu_words_win(name: Seq<char>, parent: Seq<char>, identifier: Seq<char>)
    requires
        contains(sensor_text(name, parent, identifier), "gpu"@) || contains(
            sensor_text(name, parent, identifier),
            "graphics"@,
        ) || contains(sensor_text(name, parent, identifier), "radeon"@) || contains(
            sensor_text(name, parent, identifier),
            "nvidia"@,
        ),
    ensures
        sensor_class_of(name, parent, identifier) == Some("gpu"@),
{
}

/// The number of JSON readings in `items` whose `class` is `class`.
pub open spec fn count_json_class(items: Seq<JsonV>, class: Seq<char>) -> nat
    decreases items.len(),
{
    if items.len() == 0 {
        0
    } else {
        count_json_class(items.drop_last(), class) + if field_of(items.last(), "class"@) == Some(
            JsonV::Str(class),
        ) {
            1nat
        } else {
            0nat
        }
    }
}

/// The JSON readings of `sorted`, as the report lists them.
pub open spec fn report_items(sorted: Seq<Reading>) -> Seq<JsonV> {
    Seq::new(sorted.len(), |i: int| reading_v(sorted[i]))
}

proof fn lemma_count_json_class(s: Seq<Reading>, class: Seq<char>)
    ensures
        count_json_class(report_items(s), class) == count_class(s, class),
    decreases s.len(),
{
    reveal_strlit("class");
    if s.len() > 0 {
        assert(report_items(s).drop_last() =~= report_items(s.drop_last()));
        lemma_count_json_class(s.drop_last(), class);
    }
}

/// The counts of CPU and GPU sensors in a report are the numbers of its own
/// readings of class `cpu` and `gpu` (a thermal zone counts as neither), and
/// the report says a temperature is available exactly where such a count is
/// not zero.
pub proof fn law_report_counts(sorted: Seq<Reading>, sources: Seq<Seq<char>>)
    ensures
        field_of(report_v(sorted, sources), "readings"@) == Some(JsonV::Array(report_items(sorted))),
        field_of(report_v(sorted, sources), "cpuSensorCount"@) == Some(
            JsonV::Int(count_json_class(report_items(sorted), "cpu"@) as int),
        ),
        field_of(report_v(sorted, sources), "gpuSensorCount"@) == Some(
            JsonV::Int(count_json_class(report_items(sorted), "gpu"@) as int),
        ),
        field_of(report_v(sorted, sources), "cpuTemperatureAvailable"@) == Some(
            JsonV::Bool(count_json_class(report_items(sorted), "cpu"@) > 0),
        ),
        field_of(report_v(sorted, sources), "gpuTemperatureAvailable"@) == Some(
            JsonV::Bool(count_json_class(report_items(sorted), "gpu"@) > 0),
        ),
        field_of(report_v(sorted, sources), "available"@) == Some(
            JsonV::Bool(
                count_json_class(report_items(sorted), "cpu"@) > 0 || count_json_class(
                    report_items(sorted),
                    "gpu"@,
                ) > 0,
            ),
        ),
{
    lemma_count_json_class(sorted, "cpu"@);
    lemma_count_json_class(sorted, "gpu"@);
    reveal_strlit("available");
    reveal_strlit("cpuTemperatureAvailable");
    reveal_strlit("gpuTemperatureAvailable");
    reveal_strlit("cpuSensorCount");
    reveal_strlit("gpuSensorCount");
    reveal_strlit("sensorCount");
    reveal_strlit("readings");
    let f = report_v(sorted, sources)->Object_0;
    assert(Seq::new(sorted.len(), |i: int| reading_v(sorted[i])) == report_items(sorted));
    assert("available"@.len() != "cpuTemperatureAvailable"@.len());
    assert("available"@.len() != "cpuSensorCount"@.len());
    assert("available"@.len() != "readings"@.len());
    assert("cpuTemperatureAvailable"@[0] != "gpuTemperatureAvailable"@[0]);
    assert("cpuTemperatureAvailable"@.len() != "cpuSensorCount"@.len());
    assert("cpuSensorCount"@[0] != "gpuSensorCount"@[0]);
    assert("gpuTemperatureAvailable"@.len() != "gpuSensorCount"@.len());
    assert("gpuTemperatureAvailable"@.len() != "readings"@.len());
    assert("gpuSensorCount"@.len() != "readings"@.len());
    assert("cpuTemperatureAvailable"@.len() != "readings"@.len());
    assert("cpuSensorCount"@.len() != "readings"@.len());
    assert("sensorCount"@.len() != "readings"@.len());
    lemma_first_field_step(f, "cpuTemperatureAvailable"@);
    lemma_first_field_step(f, "gpuTemperatureAvailable"@);
    lemma_first_field_step(f.drop_first(), "gpuTemperatureAvailable"@);
    lemma_first_field_step(f, "cpuSensorCount"@);
    lemma_first_field_step(f.drop_first(), "cpuSensorCount"@);
    lemma_first_field_step(f.drop_first().drop_first(), "cpuSensorCount"@);
    lemma_first_field_step(f, "gpuSensorCount"@);
    lemma_first_field_step(f.drop_first(), "gpuSensorCount"@);
    lemma_first_field_step(f.drop_first().drop_first(), "gpuSensorCount"@);
    lemma_first_field_step(f.drop_first().drop_first().drop_first(), "gpuSensorCount"@);
    lemma_first_field_step(f, "readings"@);
    lemma_first_field_step(f.drop_first(), "readings"@);
    lemma_first_field_step(f.drop_first().drop_first(), "readings"@);
    lemma_first_field_step(f.drop_first().drop_first().drop_first(), "readings"@);
    lemma_first_field_step(f.drop_first().drop_first().drop_first().drop_first(), "readings"@);
    lemma_first_field_step(f.drop_first().drop_first().drop_first().drop_first().drop_first(), "readings"@);
}

/// No more readings are CPU or GPU readings than there are readings.
pub proof fn law_class_counts_within_total(s: Seq<Reading>)
    ensures
        count_class(s, "cpu"@) + count_class(s, "gpu"@) <= s.len(),
    decreases s.len(),
{
    reveal_strlit("cpu");
    reveal_strlit("gpu");
    assert("cpu"@[0] != "gpu"@[0]);
    if s.len() > 0 {
        law_class_counts_within_total(s.drop_last());
    }
}

/// Whether `text` mentions one of the GPU words.
pub open spec fn mentions_gpu_word(text: Seq<char>) -> bool {
    contains(text, "gpu"@) || contains(text, "graphics"@) || contains(text, "radeon"@) || contains(
        text,
        "nvidia"@,
    )
}

/// Whether `text` mentions one of the CPU words.
pub open spec fn mentions_cpu_word(text: Seq<char>) -> bool {
    contains(text, "cpu"@) || contains(text, "package"@) || contains(text, "core"@) || contains(
        text,
        "processor"@,
    )
}

/// A sensor whose text mentions a CPU word (`cpu`, `package`, `core` or
/// `processor`) and no GPU word is a CPU sensor; one that mentions no word
/// of either kind has no class. With `law_gpu_words_win` this settles every
/// sensor.
pub proof fn law_cpu_words(name: Seq<char>, parent: Seq<char>, identifier: Seq<char>)
    ensures
        !mentions_gpu_word(sensor_text(name, parent, identifier)) && mentions_cpu_word(
            sensor_text(name, parent, identifier),
        ) ==> sensor_class_of(name, parent, identifier) == Some("cpu"@),
        !mentions_gpu_word(sensor_text(name, parent, identifier)) && !mentions_cpu_word(
            sensor_text(name, parent, identifier),
        ) ==> sensor_class_of(name, parent, identifier) is None,
        sensor_class_of(name, parent, identifier) == Some("gpu"@) ==> mentions_gpu_word(
            sensor_text(name, parent, identifier),
        ),
{
    reveal_strlit("cpu");
    reveal_strlit("gpu");
    assert("cpu"@[0] != "gpu"@[0]);
}

/// The text that names a request's method, where it is text.
pub open spec fn call_method(request: JsonV) -> Option<Seq<char>> {
    str_of(field_of(request, "method"@))
}

/// The status of every call is fixed by its input alone: 2 for an input
/// over 1 MiB and 3 for one that is not JSON, each with a failed reply.
pub proof fn law_call_status(input_len: int, request: Option<JsonV>)
    ensures
        input_len > MAX_BUFFER_BYTES ==> (call_outcome(input_len, request) matches Some((code, reply))
            && code == 2 && field_of(reply, "ok"@) == Some(JsonV::Bool(false))),
        input_len <= MAX_BUFFER_BYTES && request is None ==> (call_outcome(input_len, request) matches Some(
            (code, reply),
        ) && code == 3 && field_of(reply, "ok"@) == Some(JsonV::Bool(false))),
{
    reveal_strlit("ok");
}

/// A JSON request within the limit has status 0 and is answered by its
/// method: `health` with a ready reply, `capabilities` with the
/// capabilities, `invoke` of `hardware.temperature` with the temperatures,
/// `invoke` of anything else with `unknown capability` and every other
/// method with `unknown method`.
pub proof fn law_call_by_method(input_len: int, q: JsonV)
    requires
        input_len <= MAX_BUFFER_BYTES,
    ensures
        call_method(q) == Some("health"@) ==> (call_outcome(input_len, Some(q)) matches Some((code, reply))
            && code == 0 && field_of(reply, "ok"@) == Some(JsonV::Bool(true))),
        call_method(q) == Some("capabilities"@) ==> call_outcome(input_len, Some(q)) == Some(
            (0int, capabilities_v()),
        ),
        (call_method(q) == Some("invoke"@) && str_of(field_of(q, "capability"@)) == Some(
            "hardware.temperature"@,
        )) ==> call_outcome(input_len, Some(q)) is None,
        (call_method(q) == Some("invoke"@) && str_of(field_of(q, "capability"@)) != Some(
            "hardware.temperature"@,
        )) ==> call_outcome(input_len, Some(q)) == Some((0int, failure_v("unknown capability"@))),
        (call_method(q) != Some("health"@) && call_method(q) != Some("capabilities"@) && call_method(q)
            != Some("invoke"@)) ==> call_outcome(input_len, Some(q)) == Some(
            (0int, failure_v("unknown method"@)),
        ),
{
    reveal_strlit("health");
    reveal_strlit("capabilities");
    reveal_strlit("invoke");
    reveal_strlit("ok");
    assert("health"@[0] != "invoke"@[0]);
    assert("health"@.len() != "capabilities"@.len());
    assert("invoke"@.len() != "capabilities"@.len());
}

/// The capabilities that the plugin declares are exactly one,
/// `hardware.temperature`, whose input is an object with no properties.
pub proof fn law_declares_temperature_capability()
    ensures
        (field_of(capabilities_v(), "capabilities"@) matches Some(JsonV::Array(items)) && {
            &&& items.len() == 1
            &&& field_of(items[0], "name"@) == Some(JsonV::Str("hardware.temperature"@))
            &&& field_of(field_or_null(items[0], "inputSchema"@), "properties"@) == Some(
                JsonV::Object(seq![]),
            )
            &&& field_of(field_or_null(items[0], "inputSchema"@), "additionalProperties"@) == Some(
                JsonV::Bool(false),
            )
        }),
{
    reveal_strlit("name");
    reveal_strlit("inputSchema");
    reveal_strlit("description");
    reveal_strlit("type");
    reveal_strlit("properties");
    reveal_strlit("additionalProperties");
    let entry = capabilities_v()->Object_0[0].1->Array_0[0];
    let schema = entry->Object_0[2].1;
    assert("description"@[0] != "inputSchema"@[0]);
    assert("name"@.len() != "inputSchema"@.len());
    lemma_first_field_step(entry->Object_0, "inputSchema"@);
    lemma_first_field_step(entry->Object_0.drop_first(), "inputSchema"@);
    assert("type"@.len() != "properties"@.len());
    assert("additionalProperties"@.len() != "properties"@.len());
    lemma_first_field_step(schema->Object_0, "properties"@);
    lemma_first_field_step(schema->Object_0.drop_first(), "properties"@);
    assert("type"@.len() != "additionalProperties"@.len());
    lemma_first_field_step(schema->Object_0, "additionalProperties"@);
}

} // verus!
