//! What holds of every shortcut conversion.
//!
//! The laws speak of whole runs: the step that the arguments begin with, and
//! the steps that follow as the caller reports, one report after the other.

use crate::outcome::Report;
use crate::shortcut::document::document_of;
use crate::shortcut::request::{request_of, ShortcutErrorView, ShortcutRequestView};
use crate::shortcut::stem::{dot_free, is_stem_of, lemma_stem_of, lemma_stem_unique};
use crate::shortcut::steps::{
    final_name_of, first_step, next_step, CompileRequestView, OutputFormat, ShortcutActionView,
    ShortcutView,
};
use crate::shortcut::{
    DEFAULT_FONT, FILE_NAME_ERROR, FONTS_REQUEST, INTERMEDIATE_FILE_NAME, NO_FILE_SPECIFIED,
};
use vstd::prelude::*;

verus! {

/// Where a conversion stands after the reports `reports`, taken in order from
/// `state`.
pub open spec fn state_after(state: ShortcutView, reports: Seq<Report>) -> ShortcutView
    decreases reports.len(),
{
    if reports.len() == 0 {
        state
    } else {
        state_after(next_step(state, reports[0]).0, reports.drop_first())
    }
}

/// The actions that the reports `reports`, taken in order from `state`, are
/// answered with: one for each report.
pub open spec fn answers(state: ShortcutView, reports: Seq<Report>) -> Seq<ShortcutActionView>
    decreases reports.len(),
{
    if reports.len() == 0 {
        Seq::empty()
    } else {
        seq![next_step(state, reports[0]).1] + answers(
            next_step(state, reports[0]).0,
            reports.drop_first(),
        )
    }
}

/// Every action of the conversion that `args` begin and `reports` carry on:
/// the first step, then the answer to each report.
pub open spec fn conversion(args: Seq<Seq<char>>, reports: Seq<Report>) -> Seq<ShortcutActionView> {
    seq![first_step(args).1] + answers(first_step(args).0, reports)
}

/// Every report has its answer.
pub proof fn lemma_answers_len(state: ShortcutView, reports: Seq<Report>)
    ensures
        answers(state, reports).len() == reports.len(),
    decreases reports.len(),
{
    if reports.len() > 0 {
        lemma_answers_len(next_step(state, reports[0]).0, reports.drop_first());
    }
}

/// Once a conversion is over, it stays so, and every further report is
/// answered with `Idle`.
pub proof fn law_finished_stays_idle(reports: Seq<Report>)
    ensures
        state_after(ShortcutView::Finished, reports) == ShortcutView::Finished,
        answers(ShortcutView::Finished, reports).len() == reports.len(),
        forall|i: int|
            0 <= i < reports.len() ==> answers(ShortcutView::Finished, reports)[i]
                == ShortcutActionView::Idle,
    decreases reports.len(),
{
    lemma_answers_len(ShortcutView::Finished, reports);
    if reports.len() > 0 {
        law_finished_stays_idle(reports.drop_first());
        let rest = answers(ShortcutView::Finished, reports.drop_first());
        assert forall|i: int| 0 <= i < reports.len() implies answers(
            ShortcutView::Finished,
            reports,
        )[i] == ShortcutActionView::Idle by {
            if i > 0 {
                assert(answers(ShortcutView::Finished, reports)[i] == rest[i - 1]);
            }
        }
    }
}

/// The first failure ends a conversion: the step that failed is answered with
/// the end of the conversion, in an error that carries the report, and no step
/// is asked for after it.
pub proof fn law_failure_ends_conversion(state: ShortcutView, reports: Seq<Report>, at: int)
    requires
        0 <= at < reports.len(),
        reports[at] is Err,
        !(state_after(state, reports.take(at)) is Finished),
    ensures
        ({
            let run = answers(state, reports);
            &&& run.len() == reports.len()
            &&& run[at] matches ShortcutActionView::Finish(Err(error))
            &&& error.message() == reports[at]->Err_0
            &&& !error.is_argument_error()
            &&& forall|i: int| at < i < reports.len() ==> run[i] == ShortcutActionView::Idle
        }),
    decreases at,
{
    lemma_answers_len(state, reports);
    let run = answers(state, reports);
    let next = next_step(state, reports[0]).0;
    let rest = reports.drop_first();
    lemma_answers_len(next, rest);
    if at == 0 {
        assert(reports.take(0) =~= Seq::empty());
        assert(next == ShortcutView::Finished);
        law_finished_stays_idle(rest);
        assert forall|i: int| 0 < i < reports.len() implies run[i]
            == ShortcutActionView::Idle by {
            assert(run[i] == answers(next, rest)[i - 1]);
        }
    } else {
        assert(reports.take(at).drop_first() =~= rest.take(at - 1));
        assert(reports.take(at)[0] == reports[0]);
        law_failure_ends_conversion(next, rest, at - 1);
        assert(run[at] == answers(next, rest)[at - 1]);
        assert forall|i: int| at < i < reports.len() implies run[i]
            == ShortcutActionView::Idle by {
            assert(run[i] == answers(next, rest)[i - 1]);
        }
    }
}

/// No answer to a report asks for the intermediate file to be written: it is
/// written once in a conversion at most, as the first step.
pub proof fn law_written_once(state: ShortcutView, reports: Seq<Report>)
    ensures
        answers(state, reports).len() == reports.len(),
        forall|i: int| 0 <= i < reports.len() ==> !(answers(state, reports)[i] is WriteFile),
    decreases reports.len(),
{
    lemma_answers_len(state, reports);
    if reports.len() > 0 {
        let next = next_step(state, reports[0]).0;
        let rest = reports.drop_first();
        law_written_once(next, rest);
        assert forall|i: int| 0 <= i < reports.len() implies !(answers(state, reports)[i]
            is WriteFile) by {
            if i > 0 {
                assert(answers(state, reports)[i] == answers(next, rest)[i - 1]);
            }
        }
    }
}

/// A conversion whose arguments are at fault ends at once with the error,
/// and touches no file, whatever is reported to it afterwards.
pub proof fn law_argument_error_touches_nothing(args: Seq<Seq<char>>, reports: Seq<Report>)
    requires
        request_of(args) is Err,
    ensures
        ({
            let run = conversion(args, reports);
            let error = request_of(args)->Err_0;
            &&& run.len() == reports.len() + 1
            &&& run[0] == ShortcutActionView::Finish(Err(error))
            &&& error.is_argument_error()
            &&& forall|i: int| 0 <= i < run.len() ==> !run[i].touches_files()
        }),
{
    law_finished_stays_idle(reports);
    let run = conversion(args, reports);
    assert forall|i: int| 0 <= i < run.len() implies !run[i].touches_files() by {
        if i > 0 {
            assert(run[i] == answers(ShortcutView::Finished, reports)[i - 1]);
        }
    }
}

/// Arguments that name no file are at fault: the conversion ends at once
/// with the error that says `no file specified`, and touches no file.
pub proof fn law_no_file_specified(args: Seq<Seq<char>>, reports: Seq<Report>)
    requires
        args.len() < 2,
    ensures
        ({
            let run = conversion(args, reports);
            &&& request_of(args) == Err::<ShortcutRequestView, ShortcutErrorView>(
                ShortcutErrorView::NoFileSpecified,
            )
            &&& ShortcutErrorView::NoFileSpecified.message() == NO_FILE_SPECIFIED@
            &&& run[0] == ShortcutActionView::Finish(Err(ShortcutErrorView::NoFileSpecified))
            &&& forall|i: int| 0 <= i < run.len() ==> !run[i].touches_files()
        }),
{
    law_argument_error_touches_nothing(args, reports);
}

/// An input file name without a `.`, other than `fonts`, is at fault: the
/// conversion ends at once with the error that says `file name error`, and
/// touches no file.
pub proof fn law_file_name_error(args: Seq<Seq<char>>, reports: Seq<Report>)
    requires
        args.len() >= 2,
        dot_free(args[1]),
        args[1] != FONTS_REQUEST@,
    ensures
        ({
            let run = conversion(args, reports);
            &&& request_of(args) == Err::<ShortcutRequestView, ShortcutErrorView>(
                ShortcutErrorView::FileNameError,
            )
            &&& ShortcutErrorView::FileNameError.message() == FILE_NAME_ERROR@
            &&& run[0] == ShortcutActionView::Finish(Err(ShortcutErrorView::FileNameError))
            &&& forall|i: int| 0 <= i < run.len() ==> !run[i].touches_files()
        }),
{
    lemma_stem_of(args[1]);
    law_argument_error_touches_nothing(args, reports);
}

/// The input name `fonts` asks for the list of fonts: that is the first step,
/// no step of the conversion touches a file, and when the list has been made
/// the conversion ends well.
pub proof fn law_fonts_request(args: Seq<Seq<char>>, reports: Seq<Report>)
    requires
        args.len() >= 2,
        args[1] == FONTS_REQUEST@,
    ensures
        ({
            let run = conversion(args, reports);
            &&& request_of(args) is Ok
            &&& first_step(args) == (ShortcutView::Listing, ShortcutActionView::ListFonts)
            &&& run.len() == reports.len() + 1
            &&& forall|i: int| 0 <= i < run.len() ==> !run[i].touches_files()
            &&& reports.len() > 0 && reports[0] is Ok ==> run[1] == ShortcutActionView::Finish(
                Ok(()),
            )
        }),
{
    lemma_answers_len(ShortcutView::Listing, reports);
    let run = conversion(args, reports);
    if reports.len() > 0 {
        let rest = reports.drop_first();
        law_finished_stays_idle(rest);
        assert(next_step(ShortcutView::Listing, reports[0]).0 == ShortcutView::Finished);
        assert forall|i: int| 0 <= i < run.len() implies !run[i].touches_files() by {
            if i > 1 {
                assert(run[i] == answers(ShortcutView::Listing, reports)[i - 1]);
                assert(answers(ShortcutView::Listing, reports)[i - 1] == answers(
                    ShortcutView::Finished,
                    rest,
                )[i - 2]);
            }
        }
    }
}

/// The state that the `i`-th report meets is the state after the reports
/// before it, and one report more leads one step on.
pub proof fn lemma_state_after_one_more(state: ShortcutView, reports: Seq<Report>, i: int)
    requires
        0 <= i < reports.len(),
    ensures
        state_after(state, reports.take(i + 1)) == next_step(
            state_after(state, reports.take(i)),
            reports[i],
        ).0,
    decreases i,
{
    let next = next_step(state, reports[0]).0;
    if i == 0 {
        assert(reports.take(0) =~= Seq::empty());
        assert(reports.take(1).drop_first() =~= Seq::empty());
        assert(reports.take(1)[0] == reports[0]);
        assert(state_after(next, reports.take(1).drop_first()) == next);
        assert(state_after(state, reports.take(1)) == next);
    } else {
        let rest = reports.drop_first();
        assert(reports.take(i + 1).drop_first() =~= rest.take(i));
        assert(reports.take(i).drop_first() =~= rest.take(i - 1));
        assert(reports.take(i + 1)[0] == reports[0]);
        assert(reports.take(i)[0] == reports[0]);
        lemma_state_after_one_more(next, rest, i - 1);
    }
}

/// The answer to the `i`-th report is the step that it calls for in the state
/// after the reports before it.
pub proof fn lemma_answer_at(state: ShortcutView, reports: Seq<Report>, i: int)
    requires
        0 <= i < reports.len(),
    ensures
        answers(state, reports).len() == reports.len(),
        answers(state, reports)[i] == next_step(
            state_after(state, reports.take(i)),
            reports[i],
        ).1,
    decreases i,
{
    lemma_answers_len(state, reports);
    let next = next_step(state, reports[0]).0;
    let rest = reports.drop_first();
    lemma_answers_len(next, rest);
    if i == 0 {
        assert(reports.take(0) =~= Seq::empty());
    } else {
        assert(reports.take(i).drop_first() =~= rest.take(i - 1));
        assert(reports.take(i)[0] == reports[0]);
        lemma_answer_at(next, rest, i - 1);
        assert(answers(state, reports)[i] == answers(next, rest)[i - 1]);
    }
}

/// The font of a conversion: the third argument where there is one, else the
/// default font.
pub open spec fn font_of(args: Seq<Seq<char>>) -> Seq<char> {
    if args.len() > 2 {
        args[2]
    } else {
        DEFAULT_FONT@
    }
}

/// The steps of a conversion of the file `input_file_name`, with the stem
/// `stem`, in the font `font_name`, in which nothing fails. The synthesized
/// document, with the font and the input name in it, is written to the
/// intermediate file; the compiler turns that file into a PDF named `stem`;
/// the intermediate file is removed; `stem` is renamed to `stem.pdf`; the
/// conversion ends well.
pub open spec fn plan_of(input_file_name: Seq<char>, font_name: Seq<char>, stem: Seq<char>) -> Seq<
    ShortcutActionView,
> {
    seq![
        ShortcutActionView::WriteFile {
            path: INTERMEDIATE_FILE_NAME@,
            contents: document_of(font_name, input_file_name),
        },
        ShortcutActionView::Compile(
            CompileRequestView {
                input: INTERMEDIATE_FILE_NAME@,
                output: stem,
                format: OutputFormat::Pdf,
            },
        ),
        ShortcutActionView::RemoveFile { path: INTERMEDIATE_FILE_NAME@ },
        ShortcutActionView::RenameFile { from: stem, to: final_name_of(stem) },
        ShortcutActionView::Finish(Ok(())),
    ]
}

/// As long as no step fails, a conversion keeps to its plan: where the first
/// `done` reports tell of success, the first step and the answers to those
/// reports are the first `done + 1` steps of the plan.
pub proof fn law_conversion_keeps_to_plan(
    args: Seq<Seq<char>>,
    stem: Seq<char>,
    reports: Seq<Report>,
    done: int,
)
    requires
        args.len() >= 2,
        args[1] != FONTS_REQUEST@,
        is_stem_of(stem, args[1]),
        0 <= done <= 4,
        done <= reports.len(),
        forall|i: int| 0 <= i < done ==> reports[i] is Ok,
    ensures
        conversion(args, reports).len() == reports.len() + 1,
        forall|i: int|
            0 <= i <= done ==> conversion(args, reports)[i] == plan_of(
                args[1],
                font_of(args),
                stem,
            )[i],
        done == 4 ==> state_after(first_step(args).0, reports.take(4)) == ShortcutView::Finished,
{
    lemma_stem_unique(stem, args[1]);
    let request = request_of(args)->Ok_0;
    let begun = first_step(args).0;
    let plan = plan_of(args[1], font_of(args), stem);
    lemma_answers_len(begun, reports);
    assert(begun == ShortcutView::Writing(request));
    assert(reports.take(0) =~= Seq::empty());
    assert(state_after(begun, reports.take(0)) == begun);
    assert(conversion(args, reports)[0] == plan[0]);
    if done >= 1 {
        lemma_answer_at(begun, reports, 0);
        lemma_state_after_one_more(begun, reports, 0);
        assert(conversion(args, reports)[1] == answers(begun, reports)[0]);
        assert(state_after(begun, reports.take(1)) == ShortcutView::Compiling(request));
    }
    if done >= 2 {
        lemma_answer_at(begun, reports, 1);
        lemma_state_after_one_more(begun, reports, 1);
        assert(conversion(args, reports)[2] == answers(begun, reports)[1]);
        assert(state_after(begun, reports.take(2)) == ShortcutView::Removing(request));
    }
    if done >= 3 {
        lemma_answer_at(begun, reports, 2);
        lemma_state_after_one_more(begun, reports, 2);
        assert(conversion(args, reports)[3] == answers(begun, reports)[2]);
        assert(state_after(begun, reports.take(3)) == ShortcutView::Renaming(request));
    }
    if done >= 4 {
        lemma_answer_at(begun, reports, 3);
        lemma_state_after_one_more(begun, reports, 3);
        assert(conversion(args, reports)[4] == answers(begun, reports)[3]);
        assert(state_after(begun, reports.take(4)) == ShortcutView::Finished);
    }
}

/// Four reports of success.
pub open spec fn all_well() -> Seq<Report> {
    seq![Ok(()), Ok(()), Ok(()), Ok(())]
}

/// A conversion in which every step succeeds carries out its whole plan,
/// and no more.
pub proof fn law_successful_conversion(args: Seq<Seq<char>>, stem: Seq<char>)
    requires
        args.len() >= 2,
        args[1] != FONTS_REQUEST@,
        is_stem_of(stem, args[1]),
    ensures
        conversion(args, all_well()) == plan_of(args[1], font_of(args), stem),
        state_after(first_step(args).0, all_well()) == ShortcutView::Finished,
{
    law_conversion_keeps_to_plan(args, stem, all_well(), 4);
    assert(all_well().take(4) =~= all_well());
    assert(conversion(args, all_well()) =~= plan_of(args[1], font_of(args), stem));
}

/// A compilation that fails ends the conversion at once, with the compiler's
/// words, and the intermediate file stays where it was written: whatever is
/// reported afterwards, no step asks for it to be removed.
pub proof fn law_failed_compilation_keeps_the_intermediate_file(
    args: Seq<Seq<char>>,
    stem: Seq<char>,
    reports: Seq<Report>,
)
    requires
        args.len() >= 2,
        args[1] != FONTS_REQUEST@,
        is_stem_of(stem, args[1]),
        reports.len() >= 2,
        reports[0] is Ok,
        reports[1] is Err,
    ensures
        ({
            let run = conversion(args, reports);
            &&& run.len() == reports.len() + 1
            &&& run[0] is WriteFile
            &&& run[1] is Compile
            &&& run[2] == ShortcutActionView::Finish(
                Err(ShortcutErrorView::Compile(reports[1]->Err_0)),
            )
            &&& forall|i: int| 0 <= i < run.len() ==> !(run[i] is RemoveFile)
        }),
{
    let run = conversion(args, reports);
    let begun = first_step(args).0;
    law_conversion_keeps_to_plan(args, stem, reports, 1);
    lemma_state_after_one_more(begun, reports, 0);
    assert(reports.take(0) =~= Seq::empty());
    assert(state_after(begun, reports.take(1)) is Compiling);
    lemma_answer_at(begun, reports, 1);
    law_failure_ends_conversion(begun, reports, 1);
    assert forall|i: int| 0 <= i < run.len() implies !(run[i] is RemoveFile) by {
        if i > 0 {
            assert(run[i] == answers(begun, reports)[i - 1]);
        }
    }
}

/// The files that exist once `action` has been performed with success, where
/// `files` existed before it. Writing a file and compiling to it make it
/// exist, removing a file ends that, and renaming moves the name. A step that
/// fails is not spoken of.
pub open spec fn files_after(files: Set<Seq<char>>, action: ShortcutActionView) -> Set<Seq<char>> {
    match action {
        ShortcutActionView::WriteFile { path, contents } => files.insert(path),
        ShortcutActionView::Compile(request) => files.insert(request.output),
        ShortcutActionView::RemoveFile { path } => files.remove(path),
        ShortcutActionView::RenameFile { from, to } => files.remove(from).insert(to),
        _ => files,
    }
}

/// The files that exist once every action of `actions` has been performed
/// with success, in order, where `files` existed before the first.
pub open spec fn files_after_all(files: Set<Seq<char>>, actions: Seq<ShortcutActionView>) -> Set<
    Seq<char>,
>
    decreases actions.len(),
{
    if actions.len() == 0 {
        files
    } else {
        files_after_all(files_after(files, actions[0]), actions.drop_first())
    }
}

/// A conversion in which every step succeeds leaves no intermediate file
/// behind, and leaves the PDF: whatever files there were before, afterwards
/// the intermediate file and the file named by the bare stem are gone, the
/// file `stem.pdf` is there, and every other file is as it was.
pub proof fn law_success_leaves_the_pdf(
    args: Seq<Seq<char>>,
    stem: Seq<char>,
    files: Set<Seq<char>>,
)
    requires
        args.len() >= 2,
        args[1] != FONTS_REQUEST@,
        is_stem_of(stem, args[1]),
    ensures
        !files_after_all(files, conversion(args, all_well())).contains(INTERMEDIATE_FILE_NAME@),
        files_after_all(files, conversion(args, all_well())).contains(final_name_of(stem)),
        files_after_all(files, conversion(args, all_well())) == files.remove(
            INTERMEDIATE_FILE_NAME@,
        ).remove(stem).insert(final_name_of(stem)),
{
    law_successful_conversion(args, stem);
    let a0 = conversion(args, all_well());
    let a1 = a0.drop_first();
    let a2 = a1.drop_first();
    let a3 = a2.drop_first();
    let a4 = a3.drop_first();
    let a5 = a4.drop_first();
    assert(a5.len() == 0);
    let f0 = files;
    let f1 = files_after(f0, a0[0]);
    let f2 = files_after(f1, a1[0]);
    let f3 = files_after(f2, a2[0]);
    let f4 = files_after(f3, a3[0]);
    let f5 = files_after(f4, a4[0]);
    assert(files_after_all(f5, a5) == f5);
    assert(files_after_all(f4, a4) == f5);
    assert(files_after_all(f3, a3) == f5);
    assert(files_after_all(f2, a2) == f5);
    assert(files_after_all(f1, a1) == f5);
    assert(files_after_all(f0, a0) == f5);
    let pdf = final_name_of(stem);
    assert(pdf != INTERMEDIATE_FILE_NAME@) by {
        reveal_strlit(".pdf");
        reveal_strlit("typst_inner_proc_intermediate_file");
        assert(pdf.last() == 'f');
        assert(INTERMEDIATE_FILE_NAME@.last() == 'e');
    }
    assert(pdf != stem) by {
        reveal_strlit(".pdf");
        assert(pdf.len() == stem.len() + 4);
    }
    assert(f5 =~= files.remove(INTERMEDIATE_FILE_NAME@).remove(stem).insert(pdf));
}

} // verus!
