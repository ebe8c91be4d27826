use vstd::prelude::*;
use crate::scanner::{Invocation, MacroVisitor, ScanEvent, event_of, report_of, step};
use crate::syntax::SourceError;

verus! {

/// What one source file yielded: the macro invocations of its syntax tree,
/// in traversal order, or the error that stopped its parse.
#[derive(Debug)]
pub enum SourceOutcome {
    Parsed(Vec<Invocation>),
    Failed(SourceError),
}

/// A completed run: the report and one event per invocation visited.
pub struct ScanRun {
    pub visitor: MacroVisitor,
    pub events: Vec<ScanEvent>,
}

pub open spec fn invocations_of(f: SourceOutcome) -> Seq<Invocation> {
    match f {
        SourceOutcome::Parsed(v) => v@,
        SourceOutcome::Failed(_) => Seq::empty(),
    }
}

/// All invocations of the files, file after file.
pub open spec fn all_invocations(files: Seq<SourceOutcome>) -> Seq<Invocation>
    decreases files.len(),
{
    if files.len() == 0 {
        Seq::empty()
    } else {
        all_invocations(files.drop_last()) + invocations_of(files.last())
    }
}

pub open spec fn any_failed(files: Seq<SourceOutcome>) -> bool {
    exists|i: int| 0 <= i < files.len() && (#[trigger] files[i]) is Failed
}

/// The findings of a run over the files: none when any file failed to parse.
pub open spec fn run_report(files: Seq<SourceOutcome>) -> Option<Seq<Seq<char>>> {
    if any_failed(files) {
        None
    } else {
        Some(report_of(all_invocations(files)))
    }
}

proof fn lemma_report_push(invs: Seq<Invocation>, x: Invocation)
    ensures
        report_of(invs.push(x)) == step(report_of(invs), x),
{
    assert(invs.push(x).drop_last() =~= invs);
}

/// A file that fails to parse aborts the run: there are no findings,
/// whatever the other files hold.
pub proof fn failed_source_aborts_run(files: Seq<SourceOutcome>, i: int)
    requires
        0 <= i < files.len(),
        files[i] is Failed,
    ensures
        run_report(files) is None,
{
    assert(any_failed(files));
}

/// Scanning the same files twice gives the same outcome: both runs abort with
/// the same error, or both give the same report, entry for entry and in the
/// same order, and the same number of events.
pub proof fn rescan_gives_same_report(
    files: Seq<SourceOutcome>,
    first: Result<ScanRun, SourceError>,
    second: Result<ScanRun, SourceError>,
)
    requires
        is_scan_of(files, first),
        is_scan_of(files, second),
    ensures
        first is Ok <==> second is Ok,
        first matches Err(a) ==> second matches Err(b) && a.message@ == b.message@,
        first matches Ok(a) ==> second matches Ok(b) && a.visitor@ == b.visitor@
            && a.events@.len() == b.events@.len(),
{
    if first is Err {
        let a = first->Err_0;
        let b = second->Err_0;
        let i = choose|i: int|
            0 <= i < files.len() && (#[trigger] files[i]) == SourceOutcome::Failed(a)
                && forall|j: int| 0 <= j < i ==> files[j] is Parsed;
        let k = choose|k: int|
            0 <= k < files.len() && (#[trigger] files[k]) == SourceOutcome::Failed(b)
                && forall|j: int| 0 <= j < k ==> files[j] is Parsed;
        if i < k {
            assert(files[i] is Parsed);
        } else if k < i {
            assert(files[k] is Parsed);
        }
    }
}

/// What a scan of the files yields: the error of the first file that failed
/// to parse, if any; else the report of all invocations, file after file, and
/// the event of each.
pub open spec fn is_scan_of(files: Seq<SourceOutcome>, r: Result<ScanRun, SourceError>) -> bool {
    &&& r is Err <==> any_failed(files)
    &&& r matches Err(e) ==> exists|i: int|
        0 <= i < files.len() && (#[trigger] files[i]) == SourceOutcome::Failed(e)
            && forall|j: int| 0 <= j < i ==> files[j] is Parsed
    &&& r matches Ok(run) ==> Some(run.visitor@) == run_report(files)
    &&& r matches Ok(run) ==> run.events@.len() == all_invocations(files).len() && forall|k: int|
        0 <= k < run.events@.len() ==> event_of(#[trigger] run.events@[k], all_invocations(files)[k])
}

/// Scans the files in order into one shared report. The run stops at the
/// first file that failed to parse, and then yields that file's error in
/// place of any findings.
pub fn scan_sources(files: &Vec<SourceOutcome>) -> (r: Result<ScanRun, SourceError>)
    ensures
        is_scan_of(files@, r),
{
    let mut visitor = MacroVisitor::new();
    let mut events: Vec<ScanEvent> = Vec::new();
    let mut i: usize = 0;
    while i < files.len()
        invariant
            i <= files@.len(),
            forall|j: int| 0 <= j < i ==> (#[trigger] files@[j]) is Parsed,
            visitor@ == report_of(all_invocations(files@.take(i as int))),
            events@.len() == all_invocations(files@.take(i as int)).len(),
            forall|k: int| 0 <= k < events@.len() ==>
                event_of(#[trigger] events@[k], all_invocations(files@.take(i as int))[k]),
        decreases files@.len() - i,
    {
        assert(files@.take(i + 1).drop_last() =~= files@.take(i as int));
        match &files[i] {
            SourceOutcome::Failed(e) => {
                return Err(SourceError { message: e.message.clone() });
            },
            SourceOutcome::Parsed(invs) => {
                let ghost before = all_invocations(files@.take(i as int));
                let mut j: usize = 0;
                while j < invs.len()
                    invariant
                        j <= invs@.len(),
                        visitor@ == report_of(before + invs@.take(j as int)),
                        events@.len() == before.len() + j,
                        forall|k: int| 0 <= k < events@.len() ==>
                            event_of(#[trigger] events@[k], (before + invs@.take(j as int))[k]),
                    decreases invs@.len() - j,
                {
                    let ghost prev = before + invs@.take(j as int);
                    assert(before + invs@.take(j + 1) =~= prev.push(invs@[j as int]));
                    proof {
                        lemma_report_push(prev, invs@[j as int]);
                    }
                    let e = visitor.visit_invocation(&invs[j]);
                    events.push(e);
                    j = j + 1;
                }
                assert(invs@.take(j as int) =~= invs@);
            },
        }
        i = i + 1;
    }
    assert(files@.take(i as int) =~= files@);
    Ok(ScanRun { visitor, events })
}

} // verus!
