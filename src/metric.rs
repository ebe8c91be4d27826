use vstd::prelude::*;

verus! {

/// The kinds of metric macro whose names this library extracts.
#[derive(Clone, Copy, Debug, PartialEq, Eq, Structural)]
pub enum MetricKind {
    Gauge,
    Counter,
    Histogram,
}

/// How a macro name is treated by the scanner.
#[derive(Clone, Copy, Debug, PartialEq, Eq, Structural)]
pub enum MacroClass {
    /// One of the metric macros of interest.
    Recognized(MetricKind),
    /// A registration macro of the same family, deliberately not supported.
    ExplicitlySkipped,
    /// Any other macro.
    Ignored,
}

pub open spec fn kind_name(k: MetricKind) -> Seq<char> {
    match k {
        MetricKind::Gauge => "gauge"@,
        MetricKind::Counter => "counter"@,
        MetricKind::Histogram => "histogram"@,
    }
}

/// The classification of a macro name, taken verbatim.
pub open spec fn class_of(name: Seq<char>) -> MacroClass {
    if name == "gauge"@ {
        MacroClass::Recognized(MetricKind::Gauge)
    } else if name == "counter"@ {
        MacroClass::Recognized(MetricKind::Counter)
    } else if name == "histogram"@ {
        MacroClass::Recognized(MetricKind::Histogram)
    } else if name == "register_counter"@ || name == "register_gauge"@ {
        MacroClass::ExplicitlySkipped
    } else {
        MacroClass::Ignored
    }
}

impl MetricKind {
    /// The macro name that denotes this kind.
    pub fn name(&self) -> (r: &'static str)
        ensures
            r@ == kind_name(*self),
    {
        match self {
            MetricKind::Gauge => "gauge",
            MetricKind::Counter => "counter",
            MetricKind::Histogram => "histogram",
        }
    }
}

/// Whether two strings hold the same characters.
fn same_text(a: &str, b: &str) -> (r: bool)
    ensures
        r == (a@ == b@),
{
    let n = a.unicode_len();
    if n != b.unicode_len() {
        return false;
    }
    let mut i: usize = 0;
    while i < n
        invariant
            n == a@.len(),
            n == b@.len(),
            i <= n,
            a@.subrange(0, i as int) == b@.subrange(0, i as int),
        decreases n - i,
    {
        if a.get_char(i) != b.get_char(i) {
            return false;
        }
        assert(a@.subrange(0, i + 1) == a@.subrange(0, i as int).push(a@[i as int]));
        assert(b@.subrange(0, i + 1) == b@.subrange(0, i as int).push(b@[i as int]));
        i = i + 1;
    }
    assert(a@ == a@.subrange(0, n as int));
    assert(b@ == b@.subrange(0, n as int));
    true
}

/// Classifies a macro name against the allow-list and the skip-list.
pub fn classify(name: &str) -> (r: MacroClass)
    ensures
        r == class_of(name@),
{
    if same_text(name, "gauge") {
        MacroClass::Recognized(MetricKind::Gauge)
    } else if same_text(name, "counter") {
        MacroClass::Recognized(MetricKind::Counter)
    } else if same_text(name, "histogram") {
        MacroClass::Recognized(MetricKind::Histogram)
    } else if same_text(name, "register_counter") || same_text(name, "register_gauge") {
        MacroClass::ExplicitlySkipped
    } else {
        MacroClass::Ignored
    }
}

} // verus!
