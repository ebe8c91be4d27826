use metric_scan::metric::{classify, MacroClass, MetricKind};
use metric_scan::run::{scan_sources, SourceOutcome};
use metric_scan::scanner::{Invocation, MacroVisitor, ParsedArgument, ScanEvent};
use metric_scan::syntax::parse_source;
use syn::visit::Visit;

fn invocation(src: &str) -> Invocation {
    let mac: syn::Macro = syn::parse_str(src).expect("a macro invocation");
    Invocation::from_macro(&mac)
}

fn scan_one(src: &str) -> (MacroVisitor, ScanEvent) {
    let mut visitor = MacroVisitor::new();
    let event = visitor.visit_invocation(&invocation(src));
    (visitor, event)
}

struct Collector {
    invocations: Vec<Invocation>,
}

impl<'ast> Visit<'ast> for Collector {
    fn visit_macro(&mut self, i: &'ast syn::Macro) {
        self.invocations.push(Invocation::from_macro(i));
    }
}

fn outcome_of(text: &str) -> SourceOutcome {
    match parse_source(text) {
        Ok(tree) => {
            let mut c = Collector { invocations: Vec::new() };
            c.visit_file(&tree);
            SourceOutcome::Parsed(c.invocations)
        }
        Err(e) => SourceOutcome::Failed(e),
    }
}

#[test]
fn classify_allow_list() {
    assert!(matches!(classify("gauge"), MacroClass::Recognized(MetricKind::Gauge)));
    assert!(matches!(classify("counter"), MacroClass::Recognized(MetricKind::Counter)));
    assert!(matches!(classify("histogram"), MacroClass::Recognized(MetricKind::Histogram)));
}

#[test]
fn classify_skip_list() {
    assert_eq!(classify("register_counter"), MacroClass::ExplicitlySkipped);
    assert_eq!(classify("register_gauge"), MacroClass::ExplicitlySkipped);
}

#[test]
fn classify_is_verbatim() {
    assert_eq!(classify("Gauge"), MacroClass::Ignored);
    assert_eq!(classify("counters"), MacroClass::Ignored);
    assert_eq!(classify(""), MacroClass::Ignored);
    assert_eq!(classify("register_histogram"), MacroClass::Ignored);
}

#[test]
fn kind_names() {
    assert_eq!(MetricKind::Gauge.name(), "gauge");
    assert_eq!(MetricKind::Counter.name(), "counter");
    assert_eq!(MetricKind::Histogram.name(), "histogram");
}

#[test]
fn counter_literal_is_reported() {
    let (v, e) = scan_one("counter!(\"requests_total\")");
    assert_eq!(v.macros_of_interest(), &vec!["requests_total".to_string()]);
    match e {
        ScanEvent::Extracted { kind, tokens, value } => {
            assert_eq!(kind, MetricKind::Counter);
            assert_eq!(tokens, "\"requests_total\"");
            assert_eq!(value, "requests_total");
        }
        other => panic!("unexpected event {:?}", other),
    }
}

#[test]
fn literal_escapes_are_decoded() {
    let (v, _) = scan_one("gauge!(\"a\\tb\\u{41}\")");
    assert_eq!(v.macros_of_interest(), &vec!["a\tbA".to_string()]);
}

#[test]
fn gauge_identifier_is_not_a_literal() {
    let (v, e) = scan_one("gauge!(some_variable)");
    assert!(v.macros_of_interest().is_empty());
    match e {
        ScanEvent::NotALiteralExpression { kind, tokens } => {
            assert_eq!(kind, MetricKind::Gauge);
            assert_eq!(kind.name(), "gauge");
            assert_eq!(tokens, "some_variable");
        }
        other => panic!("unexpected event {:?}", other),
    }
}

#[test]
fn histogram_expression_is_not_a_literal() {
    let (v, e) = scan_one("histogram!(1 + 2)");
    assert!(v.macros_of_interest().is_empty());
    assert!(matches!(e, ScanEvent::NotALiteralExpression { kind: MetricKind::Histogram, .. }));
}

#[test]
fn numeric_literal_is_not_a_string() {
    let (v, e) = scan_one("counter!(42)");
    assert!(v.macros_of_interest().is_empty());
    assert!(matches!(e, ScanEvent::NotALiteralExpression { kind: MetricKind::Counter, .. }));
}

#[test]
fn two_arguments_do_not_parse() {
    let (v, e) = scan_one("counter!(\"name\", 1)");
    assert!(v.macros_of_interest().is_empty());
    match e {
        ScanEvent::ArgumentParseError { kind, tokens, message } => {
            assert_eq!(kind, MetricKind::Counter);
            assert_eq!(tokens, "\"name\" , 1");
            assert!(!message.is_empty());
        }
        other => panic!("unexpected event {:?}", other),
    }
}

#[test]
fn registration_macros_are_skipped_silently() {
    for src in ["register_counter!(\"a\")", "register_gauge!(\"b\")"] {
        let (v, e) = scan_one(src);
        assert!(v.macros_of_interest().is_empty());
        assert!(matches!(e, ScanEvent::NotOfInterest));
    }
}

#[test]
fn other_macros_are_ignored() {
    for src in ["println!(\"hello\")", "Counter!(\"x\")", "metrics::counter!(\"x\")"] {
        let (v, e) = scan_one(src);
        assert!(v.macros_of_interest().is_empty());
        assert!(matches!(e, ScanEvent::NotOfInterest));
    }
}

#[test]
fn path_macro_has_no_name() {
    let inv = invocation("metrics::counter!(\"x\")");
    assert!(inv.name.is_none());
    let inv = invocation("counter!(\"x\")");
    assert_eq!(inv.name.as_deref(), Some("counter"));
    assert!(matches!(inv.argument, ParsedArgument::StringLiteral(ref s) if s == "x"));
}

#[test]
fn file_scan_keeps_traversal_order() {
    let text = "fn f() { counter!(\"a\"); let x = 1; gauge!(x); }\n\
                fn g() { if true { histogram!(\"b\"); } counter!(\"a\"); register_gauge!(\"c\"); }";
    let run = scan_sources(&vec![outcome_of(text)]).ok().expect("a run");
    assert_eq!(
        run.visitor.macros_of_interest(),
        &vec!["a".to_string(), "b".to_string(), "a".to_string()]
    );
    assert_eq!(run.events.len(), 5);
    assert!(matches!(run.events[1], ScanEvent::NotALiteralExpression { kind: MetricKind::Gauge, .. }));
    assert!(matches!(run.events[4], ScanEvent::NotOfInterest));
}

#[test]
fn reports_accumulate_across_files() {
    let files = vec![outcome_of("fn a() { counter!(\"one\"); }"), outcome_of("fn b() { gauge!(\"two\"); }")];
    let run = scan_sources(&files).ok().expect("a run");
    assert_eq!(run.visitor.macros_of_interest(), &vec!["one".to_string(), "two".to_string()]);
}

#[test]
fn parse_source_accepts_and_rejects() {
    assert!(parse_source("fn main() {}").is_ok());
    assert!(parse_source("").is_ok());
    let err = parse_source("fn main( {").err().expect("a parse error");
    assert!(!err.message.is_empty());
}

#[test]
fn unparsable_file_aborts_the_run() {
    let files = vec![
        outcome_of("fn a() { counter!(\"one\"); }"),
        outcome_of("fn broken( {"),
        outcome_of("fn c() { gauge!(\"three\"); }"),
    ];
    assert!(matches!(files[1], SourceOutcome::Failed(_)));
    let err = scan_sources(&files).err().expect("the run aborts");
    assert!(!err.message.is_empty());
}

#[test]
fn scanning_twice_gives_the_same_report() {
    let text = "fn f() { counter!(\"x\"); histogram!(\"y\"); gauge!(\"x\"); }";
    let first = scan_sources(&vec![outcome_of(text)]).ok().expect("a run");
    let second = scan_sources(&vec![outcome_of(text)]).ok().expect("a run");
    assert_eq!(first.visitor.macros_of_interest(), second.visitor.macros_of_interest());
    assert_eq!(first.visitor.macros_of_interest().len(), 3);
}

#[test]
fn empty_run_has_empty_report() {
    let run = scan_sources(&Vec::new()).ok().expect("a run");
    assert!(run.visitor.macros_of_interest().is_empty());
    assert!(run.events.is_empty());
    assert!(MacroVisitor::new().macros_of_interest().is_empty());
}

#[test]
fn parse_error_messages_are_the_parsers() {
    let text = "fn broken( {";
    let err = parse_source(text).err().expect("a parse error");
    let direct = syn::parse_file(text).err().expect("a parse error");
    assert_eq!(err.message, direct.to_string());

    let mac: syn::Macro = syn::parse_str("counter!(\"name\", 1)").expect("a macro invocation");
    let direct = mac.parse_body::<syn::Expr>().err().expect("a parse error");
    match Invocation::from_macro(&mac).argument {
        ParsedArgument::Unparsable(m) => assert_eq!(m, direct.to_string()),
        other => panic!("unexpected argument {:?}", other),
    }
}
