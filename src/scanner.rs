use vstd::prelude::*;
use crate::metric::{MetricKind, MacroClass, class_of, classify};

verus! {

/// What the argument tokens of an invocation turned out to be when parsed
/// as one expression.
#[derive(Debug)]
pub enum ParsedArgument {
    /// A plain string-literal expression, with its decoded value.
    StringLiteral(String),
    /// Any other expression: an identifier, a number, a binary expression, ...
    OtherExpression,
    /// The tokens do not form one expression; the parser's message.
    Unparsable(String),
}

/// A macro invocation as the scanner sees it.
#[derive(Debug)]
pub struct Invocation {
    /// The invocation's name, when its path is a single identifier.
    pub name: Option<String>,
    /// The raw text of the argument tokens.
    pub tokens: String,
    /// The argument tokens parsed as one expression.
    pub argument: ParsedArgument,
}

/// The outcome of scanning one invocation.
#[derive(Debug)]
pub enum ScanEvent {
    /// The name is not one of the metric macros: nothing to report.
    NotOfInterest,
    /// A metric name was extracted and added to the report.
    Extracted { kind: MetricKind, tokens: String, value: String },
    /// The argument parsed, but is not a string literal.
    NotALiteralExpression { kind: MetricKind, tokens: String },
    /// The argument tokens do not parse as one expression.
    ArgumentParseError { kind: MetricKind, tokens: String, message: String },
}

/// Collects, in order, the metric names extracted from the invocations it visits.
pub struct MacroVisitor {
    pub macros_of_interest: Vec<String>,
}

pub open spec fn strings_view(v: Seq<String>) -> Seq<Seq<char>> {
    v.map_values(|s: String| s@)
}

impl View for MacroVisitor {
    type V = Seq<Seq<char>>;

    open spec fn view(&self) -> Seq<Seq<char>> {
        strings_view(self.macros_of_interest@)
    }
}

/// The classification of an invocation's name; a path that is not a single
/// identifier is of no interest.
pub open spec fn name_class(name: Option<String>) -> MacroClass {
    match name {
        Some(s) => class_of(s@),
        None => MacroClass::Ignored,
    }
}

/// The metric name an invocation contributes to the report, if any.
pub open spec fn extracted(inv: Invocation) -> Option<Seq<char>> {
    match name_class(inv.name) {
        MacroClass::Recognized(_) => match inv.argument {
            ParsedArgument::StringLiteral(v) => Some(v@),
            _ => None,
        },
        _ => None,
    }
}

/// The report after one more invocation has been scanned.
pub open spec fn step(report: Seq<Seq<char>>, inv: Invocation) -> Seq<Seq<char>> {
    match extracted(inv) {
        Some(v) => report.push(v),
        None => report,
    }
}

/// The report built by scanning the invocations in order, from an empty one.
pub open spec fn report_of(invs: Seq<Invocation>) -> Seq<Seq<char>>
    decreases invs.len(),
{
    if invs.len() == 0 {
        Seq::empty()
    } else {
        step(report_of(invs.drop_last()), invs.last())
    }
}

/// Whether `e` is the event that scanning `inv` gives.
pub open spec fn event_of(e: ScanEvent, inv: Invocation) -> bool {
    match name_class(inv.name) {
        MacroClass::Recognized(k) => match inv.argument {
            ParsedArgument::StringLiteral(v) => e matches ScanEvent::Extracted { kind, tokens, value }
                && kind == k && tokens@ == inv.tokens@ && value@ == v@,
            ParsedArgument::OtherExpression => e matches ScanEvent::NotALiteralExpression { kind, tokens }
                && kind == k && tokens@ == inv.tokens@,
            ParsedArgument::Unparsable(m) => e matches ScanEvent::ArgumentParseError { kind, tokens, message }
                && kind == k && tokens@ == inv.tokens@ && message@ == m@,
        },
        _ => e is NotOfInterest,
    }
}

proof fn lemma_report_take_step(invs: Seq<Invocation>, k: int)
    requires
        0 <= k < invs.len(),
    ensures
        report_of(invs.take(k + 1)) == step(report_of(invs.take(k)), invs[k]),
{
    assert(invs.take(k + 1).drop_last() =~= invs.take(k));
}

proof fn lemma_report_prefix(invs: Seq<Invocation>, k: int)
    requires
        0 <= k <= invs.len(),
    ensures
        report_of(invs.take(k)).len() <= report_of(invs).len(),
        report_of(invs).take(report_of(invs.take(k)).len() as int) == report_of(invs.take(k)),
    decreases invs.len() - k,
{
    if k == invs.len() {
        assert(invs.take(k) =~= invs);
        assert(report_of(invs).take(report_of(invs).len() as int) =~= report_of(invs));
    } else {
        lemma_report_prefix(invs, k + 1);
        lemma_report_take_step(invs, k);
        let a = report_of(invs.take(k));
        let b = report_of(invs.take(k + 1));
        let c = report_of(invs);
        assert(c.take(b.len() as int) == b);
        assert(c.take(a.len() as int) =~= b.take(a.len() as int));
        assert(b.take(a.len() as int) =~= a);
    }
}

/// Each invocation of a metric macro whose argument is one string literal
/// adds its decoded value to the report exactly once, right after the entries
/// of the invocations before it; every other invocation adds nothing. The
/// report up to any invocation is kept, as it was, at the front of the final
/// report, so entries come in traversal order.
pub proof fn literal_reported_once_in_order(invs: Seq<Invocation>, i: int)
    requires
        0 <= i < invs.len(),
    ensures
        extracted(invs[i]) matches Some(v) ==> report_of(invs.take(i + 1)) == report_of(
            invs.take(i),
        ).push(v),
        extracted(invs[i]) is None ==> report_of(invs.take(i + 1)) == report_of(invs.take(i)),
        report_of(invs.take(i + 1)).len() <= report_of(invs).len(),
        report_of(invs).take(report_of(invs.take(i + 1)).len() as int) == report_of(
            invs.take(i + 1),
        ),
{
    lemma_report_take_step(invs, i);
    lemma_report_prefix(invs, i + 1);
}

/// A registration macro is skipped: it adds nothing to the report and gives
/// the same event as any other macro of no interest.
pub proof fn registration_macros_are_skipped(report: Seq<Seq<char>>, inv: Invocation, e: ScanEvent)
    requires
        inv.name matches Some(n) && (n@ == "register_counter"@ || n@ == "register_gauge"@),
    ensures
        step(report, inv) == report,
        event_of(e, inv) <==> e is NotOfInterest,
{
    reveal_strlit("gauge");
    reveal_strlit("counter");
    reveal_strlit("histogram");
    reveal_strlit("register_counter");
    reveal_strlit("register_gauge");
    let n = inv.name->0;
    assert(n@.len() != "gauge"@.len() && n@.len() != "counter"@.len()
        && n@.len() != "histogram"@.len());
    assert(class_of(n@) == MacroClass::ExplicitlySkipped);
}

/// A macro whose name is none of the metric macros and none of the
/// registration macros is ignored: nothing is added and no diagnostic is given.
pub proof fn other_macros_are_ignored(report: Seq<Seq<char>>, inv: Invocation, e: ScanEvent)
    requires
        inv.name matches Some(n) ==> !(n@ == "gauge"@ || n@ == "counter"@ || n@ == "histogram"@
            || n@ == "register_counter"@ || n@ == "register_gauge"@),
    ensures
        step(report, inv) == report,
        event_of(e, inv) <==> e is NotOfInterest,
{
}


impl MacroVisitor {
    /// A visitor with an empty report.
    pub fn new() -> (r: Self)
        ensures
            r@ == Seq::<Seq<char>>::empty(),
    {
        MacroVisitor { macros_of_interest: Vec::new() }
    }

    /// The metric names collected so far, in the order they were found.
    pub fn macros_of_interest(&self) -> (r: &Vec<String>)
        ensures
            strings_view(r@) == self@,
    {
        &self.macros_of_interest
    }

    /// Scans one invocation: classifies its name and, for a metric macro,
    /// appends the argument's value to the report when it is a string literal.
    pub fn visit_invocation(&mut self, inv: &Invocation) -> (e: ScanEvent)
        ensures
            final(self)@ == step(old(self)@, *inv),
            event_of(e, *inv),
    {
        let class = match &inv.name {
            Some(n) => classify(n.as_str()),
            None => MacroClass::Ignored,
        };
        match class {
            MacroClass::Recognized(kind) => match &inv.argument {
                ParsedArgument::StringLiteral(value) => {
                    let ghost pre = self.macros_of_interest@;
                    self.macros_of_interest.push(value.clone());
                    assert(strings_view(self.macros_of_interest@) =~= strings_view(pre).push(value@));
                    ScanEvent::Extracted { kind, tokens: inv.tokens.clone(), value: value.clone() }
                },
                ParsedArgument::OtherExpression => ScanEvent::NotALiteralExpression {
                    kind,
                    tokens: inv.tokens.clone(),
                },
                ParsedArgument::Unparsable(message) => ScanEvent::ArgumentParseError {
                    kind,
                    tokens: inv.tokens.clone(),
                    message: message.clone(),
                },
            },
            _ => ScanEvent::NotOfInterest,
        }
    }
}

} // verus!
