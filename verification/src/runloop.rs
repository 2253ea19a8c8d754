//! The run loop's decision for one iteration: read a line, and either stop,
//! skip, or launch the line's stages in order.

use vstd::prelude::*;
use crate::parser::{line_plan, parse_command_line, tokenize_stage, tokens_of, split_on};

verus! {

/// What the view of a sequence of tokenized stages is: one sequence of
/// token strings per stage, in order.
pub open spec fn stages_view(v: Seq<Vec<String>>) -> Seq<Seq<Seq<char>>> {
    v.map_values(|st: Vec<String>| st@.map_values(|t: String| t@))
}

/// What the run loop does with one read attempt.
pub enum LoopDecision {
    /// End of input: terminate cleanly, with no further prompt.
    Exit,
    /// An empty line: no command line, no launch; prompt again.
    Skip,
    /// A non-empty line: launch each stage in order.
    Run(Vec<Vec<String>>),
}

/// Decides one iteration of the run loop.  End of input ends the loop; an
/// empty line is skipped with no launch; any other line is split into
/// stages, each tokenized, to be launched in order.  A stage with zero
/// tokens — one whose segment held only whitespace — stays in the plan
/// unchanged, and is refused by the launch gate (`stage_is_launchable`'s
/// non-empty test) before any process is created.
pub fn shell_step(line: Option<String>) -> (d: LoopDecision)
    ensures
        line is None ==> d is Exit,
        (line matches Some(l) ==> (l@.len() == 0 ==> d is Skip)),
        (line matches Some(l) ==> (l@.len() > 0 ==> (d matches LoopDecision::Run(cl)
            && stages_view(cl@) == line_plan(l@)))),
{
    match line {
        None => LoopDecision::Exit,
        Some(l) => {
            let ghost line_view = l@;
            match parse_command_line(l) {
                None => LoopDecision::Skip,
                Some(stage_strings) => {
                    let ghost segs = split_on(line_view, '|');
                    let mut out: Vec<Vec<String>> = Vec::new();
                    let mut k: usize = 0;
                    while k < stage_strings.len()
                        invariant
                            stage_strings@.map_values(|t: String| t@) == segs,
                            k <= stage_strings@.len(),
                            out@.len() == k,
                            forall|j: int|
                                0 <= j < k ==> (#[trigger] out@[j])@.map_values(|t: String| t@)
                                    == tokens_of(segs[j]),
                        decreases stage_strings@.len() - k,
                    {
                        let toks = tokenize_stage(stage_strings[k].as_str());
                        proof {
                            assert(stage_strings@.map_values(|t: String| t@)[k as int]
                                == stage_strings@[k as int]@);
                        }
                        out.push(toks);
                        k = k + 1;
                    }
                    proof {
                        assert(stages_view(out@) =~= line_plan(line_view));
                    }
                    LoopDecision::Run(out)
                },
            }
        },
    }
}

} // verus!
