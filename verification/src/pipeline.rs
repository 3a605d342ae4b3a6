//! The pipeline executor: given the tokenized chain, validate its
//! well-formedness, resolve each stage's command name against the
//! registry, invoke the handlers strictly in order, and thread each
//! stage's output into the next stage's input. The first failure aborts
//! the pipeline; the executor performs no rollback.
//!
//! The registry and the handlers are collaborators: they plug in
//! through the [`CommandSet`] trait, whose two spec functions —
//! [`CommandSet::knows`] for resolution and [`CommandSet::handler_post`]
//! for handler behaviour — are defined by each implementation. The
//! executor's contract is stated over them, so whatever an
//! implementation proves (or its users assume) about its handlers
//! carries through [`run`] unchanged.

use vstd::prelude::*;

use crate::cmd::CommandInput;
use crate::cmd::CommandOutput;
use crate::cmd::Fallacy;
use crate::cmd::spec_prior;

verus! {

/// The registry of command handlers, together with the handlers it
/// resolves to: one capability, consulted read-only by the executor.
pub trait CommandSet<S, C> {
    /// Which command names the registry resolves. Resolution is exact,
    /// case-sensitive string match. Until an implementation says
    /// otherwise, nothing resolves.
    open spec fn knows(&self, name: Seq<char>) -> bool {
        false
    }

    /// The contract every handler of this set satisfies: it relates the
    /// stage's argument tokens, the previous stage's output, the store
    /// before and after the invocation, the configuration, and the
    /// handler's result. Each implementation defines it; the executor
    /// promises it of every stage it runs.
    open spec fn handler_post(
        &self,
        args: Seq<Seq<char>>,
        prior: Option<CommandOutput>,
        store0: S,
        store1: S,
        config: C,
        r: Result<CommandOutput, Fallacy>,
    ) -> bool {
        false
    }

    /// Does the registry resolve this command name?
    fn contains(&self, name: &String) -> (r: bool)
        ensures
            r == self.knows(name@),
    ;

    /// Invoke the handler registered for the first argument token. The
    /// input is moved in: the handler does not retain it.
    fn invoke(&self, input: CommandInput, store: &mut S, config: &C) -> (r: Result<
        CommandOutput,
        Fallacy,
    >)
        requires
            input.args@.len() > 0,
            self.knows(input.args@[0]@),
        ensures
            self.handler_post(
                input.args.deep_view(),
                input.prior,
                *old(store),
                *final(store),
                *config,
                r,
            ),
    ;
}

/// A blank segment: no tokens at all, or only the single empty token
/// that the tokenizer leaves as the placeholder for a stage with no
/// content.
pub open spec fn seg_blank(seg: Seq<Seq<char>>) -> bool {
    seg.len() == 0 || (seg.len() == 1 && seg[0].len() == 0)
}

/// Executable twin of [`seg_blank`].
pub fn segment_blank(seg: &Vec<String>) -> (r: bool)
    ensures
        r == seg_blank(seg.deep_view()),
{
    proof {
        assert(seg.deep_view().len() == seg@.len());
        if seg@.len() > 0 {
            assert(seg.deep_view()[0] == seg@[0]@);
        }
    }
    seg.len() == 0 || (seg.len() == 1 && seg[0].as_str().is_empty())
}

/// A well-formed pipeline: no stage is blank.
pub open spec fn chain_wf(chain: Seq<Seq<Seq<char>>>) -> bool {
    forall|j: int| 0 <= j < chain.len() ==> !seg_blank(#[trigger] chain[j])
}

/// The first token that marks a comment line.
pub open spec fn comment_marker() -> Seq<char> {
    "#"@
}

/// The position of the first blank segment at or after `i`, or -1.
pub open spec fn first_blank_from(chain: Seq<Seq<Seq<char>>>, i: int) -> int
    decreases chain.len() - i,
{
    if i < 0 || i >= chain.len() {
        -1
    } else if seg_blank(chain[i]) {
        i
    } else {
        first_blank_from(chain, i + 1)
    }
}

/// The reason a malformed chain is rejected, by the position of its
/// first blank segment: leading, trailing, or interior.
pub open spec fn chain_error_message(pos: int, len: int) -> Seq<char> {
    if pos == 0 {
        "A chain cannot begin with a pipe."@
    } else if pos == len - 1 {
        "A chain cannot end with a pipe."@
    } else {
        "Only single-pipe chaining is supported."@
    }
}

/// A true pipeline executes correctly from stage `i` on: starting from
/// store `store0` with the previous stage's output `prev`, it ends in
/// store `store1` with result `r`. Stage resolution failures leave the
/// store as the failing stage found it; a handler's result and store
/// mutation are whatever [`CommandSet::handler_post`] admits.
pub open spec fn pipeline_runs<S, C, R: CommandSet<S, C>>(
    reg: R,
    chain: Seq<Seq<Seq<char>>>,
    i: int,
    prev: CommandOutput,
    store0: S,
    config: C,
    store1: S,
    r: Result<CommandOutput, Fallacy>,
) -> bool
    decreases chain.len() - i,
{
    if i < 0 || i >= chain.len() {
        store1 == store0 && r == Ok::<CommandOutput, Fallacy>(prev)
    } else if !reg.knows(chain[i][0]) {
        &&& store1 == store0
        &&& r matches Err(Fallacy::UnknownCommand(n)) && n@ == chain[i][0]
    } else {
        exists|mid: S, h: Result<CommandOutput, Fallacy>|
            {
                &&& #[trigger] reg.handler_post(chain[i], spec_prior(prev), store0, mid, config, h)
                &&& match h {
                    Ok(out) => pipeline_runs(reg, chain, i + 1, out, mid, config, store1, r),
                    Err(e) => store1 == mid && r == Err::<CommandOutput, Fallacy>(e),
                }
            }
    }
}

/// Everything [`run`] promises, as one predicate over the chain, the
/// store before and after, and the result:
///   - an empty chain, a blank single segment, or a comment line (first
///     token `#`) succeeds silently and leaves the store untouched;
///   - a single command whose name the registry does not resolve fails
///     with that name and never reaches a handler;
///   - a single resolved command behaves as its handler's contract says;
///   - a pipeline with a blank stage is rejected up front with the
///     position-aware reason, before any handler runs;
///   - a well-formed pipeline runs its stages strictly in order,
///     threading outputs, stopping at the first failure.
pub open spec fn run_post<S, C, R: CommandSet<S, C>>(
    reg: R,
    cd: Seq<Seq<Seq<char>>>,
    store0: S,
    store1: S,
    config: C,
    r: Result<CommandOutput, Fallacy>,
) -> bool {
    &&& (cd.len() == 0 ==> store1 == store0 && r == Ok::<CommandOutput, Fallacy>(
        CommandOutput::Silent,
    ))
    &&& (cd.len() == 1 && seg_blank(cd[0]) ==> store1 == store0 && r == Ok::<
        CommandOutput,
        Fallacy,
    >(CommandOutput::Silent))
    &&& (cd.len() == 1 && !seg_blank(cd[0]) && cd[0][0] == comment_marker() ==> store1 == store0
        && r == Ok::<CommandOutput, Fallacy>(CommandOutput::Silent))
    &&& (cd.len() == 1 && !seg_blank(cd[0]) && cd[0][0] != comment_marker() && !reg.knows(cd[0][0])
        ==> store1 == store0 && (r matches Err(Fallacy::UnknownCommand(n)) && n@ == cd[0][0]))
    &&& (cd.len() == 1 && !seg_blank(cd[0]) && cd[0][0] != comment_marker() && reg.knows(cd[0][0])
        ==> reg.handler_post(cd[0], Option::None, store0, store1, config, r))
    &&& (cd.len() >= 2 && !chain_wf(cd) ==> store1 == store0 && (r matches Err(
        Fallacy::InvalidChain(m),
    ) && m@ == chain_error_message(first_blank_from(cd, 0), cd.len() as int)))
    &&& (cd.len() >= 2 && chain_wf(cd) ==> pipeline_runs(
        reg,
        cd,
        0,
        CommandOutput::Silent,
        store0,
        config,
        store1,
        r,
    ))
}

/// Check a true pipeline up front: every stage must be non-blank. The
/// first blank stage fails the whole chain, with a message that says
/// whether the chain begins with a pipe, ends with one, or holds two
/// with nothing between.
pub fn validate_chain(chain: &Vec<Vec<String>>) -> (r: Result<(), Fallacy>)
    ensures
        r is Ok <==> chain_wf(chain.deep_view()),
        r is Err ==> (r matches Err(Fallacy::InvalidChain(m)) && m@ == chain_error_message(
            first_blank_from(chain.deep_view(), 0),
            chain.deep_view().len() as int,
        )),
{
    let ghost cd = chain.deep_view();
    let n = chain.len();
    proof {
        assert(cd.len() == chain@.len());
    }
    let mut j: usize = 0;
    while j < n
        invariant
            j <= n,
            n == chain@.len(),
            cd == chain.deep_view(),
            cd.len() == n,
            forall|k: int| 0 <= k < j ==> !seg_blank(#[trigger] cd[k]),
        decreases n - j,
    {
        proof {
            assert(chain[j as int].deep_view() == cd[j as int]);
        }
        if segment_blank(&chain[j]) {
            proof {
                lemma_first_blank_from(cd, 0, j as int);
            }
            let msg = if j == 0 {
                "A chain cannot begin with a pipe."
            } else if j == n - 1 {
                "A chain cannot end with a pipe."
            } else {
                "Only single-pipe chaining is supported."
            };
            return Err(Fallacy::InvalidChain(msg.to_owned()));
        }
        j = j + 1;
    }
    Ok(())
}

/// If everything before `j` is non-blank and `j` is blank, then `j` is
/// the first blank position at or after `i`.
proof fn lemma_first_blank_from(cd: Seq<Seq<Seq<char>>>, i: int, j: int)
    requires
        0 <= i <= j < cd.len(),
        seg_blank(cd[j]),
        forall|k: int| i <= k < j ==> !seg_blank(#[trigger] cd[k]),
    ensures
        first_blank_from(cd, i) == j,
    decreases j - i,
{
    if i < j {
        lemma_first_blank_from(cd, i + 1, j);
    }
}

/// Execute one tokenized chain against a registry of handlers: the
/// contract is [`run_post`]. The store is borrowed for this one call
/// and handed to at most one handler at a time.
pub fn run<S, C, R: CommandSet<S, C>>(
    registry: &R,
    chain: Vec<Vec<String>>,
    store: &mut S,
    config: &C,
) -> (r: Result<CommandOutput, Fallacy>)
    ensures
        run_post(*registry, chain.deep_view(), *old(store), *final(store), *config, r),
{
    let ghost cd = chain.deep_view();
    let mut rest = chain;
    proof {
        assert(cd.len() == rest@.len());
    }
    if rest.len() == 0 {
        return Ok(CommandOutput::Silent);
    }
    if rest.len() == 1 {
        let seg = rest.remove(0);
        proof {
            assert(seg.deep_view() == cd[0]);
            assert(seg.deep_view().len() == seg@.len());
        }
        if segment_blank(&seg) {
            return Ok(CommandOutput::Silent);
        }
        proof {
            assert(seg.deep_view()[0] == seg@[0]@);
        }
        let marker = "#".to_owned();
        if seg[0] == marker {
            return Ok(CommandOutput::Silent);
        }
        if !registry.contains(&seg[0]) {
            let name = seg[0].clone();
            return Err(Fallacy::UnknownCommand(name));
        }
        let input = CommandInput { args: seg, prior: Option::None };
        return registry.invoke(input, store, config);
    }

    if let Err(f) = validate_chain(&rest) {
        return Err(f);
    }

    let ghost s0 = *store;
    let ghost mut i: int = 0;
    let mut prev = CommandOutput::Silent;
    proof {
        assert(cd.skip(0) =~= cd);
    }
    while rest.len() > 0
        invariant
            cd == chain.deep_view(),
            0 <= i <= cd.len(),
            rest.deep_view() == cd.skip(i),
            rest@.len() == cd.len() - i,
            cd.len() >= 2,
            chain_wf(cd),
            s0 == *old(store),
            forall|sf: S, rr: Result<CommandOutput, Fallacy>|
                #[trigger] pipeline_runs(*registry, cd, i, prev, *store, *config, sf, rr)
                    ==> pipeline_runs(
                    *registry,
                    cd,
                    0,
                    CommandOutput::Silent,
                    s0,
                    *config,
                    sf,
                    rr,
                ),
        decreases rest@.len(),
    {
        let ghost old_sh = rest@;
        let ghost old_dv = rest.deep_view();
        let seg = rest.remove(0);
        proof {
            assert(seg.deep_view() == old_dv[0]);
            assert(old_dv[0] == cd[i]);
            assert(!seg_blank(cd[i]));
            assert forall|k: int| 0 <= k < rest@.len() implies #[trigger] rest.deep_view()[k]
                == cd.skip(i + 1)[k] by {
                assert(rest@[k] == old_sh[k + 1]);
                assert(rest.deep_view()[k] == rest@[k].deep_view());
                assert(old_dv[k + 1] == old_sh[k + 1].deep_view());
                assert(cd.skip(i)[k + 1] == cd[i + 1 + k]);
                assert(cd.skip(i + 1)[k] == cd[i + 1 + k]);
            }
            assert(rest.deep_view() =~= cd.skip(i + 1));
            assert(seg.deep_view().len() == seg@.len());
            assert(seg.deep_view()[0] == seg@[0]@);
        }
        if !registry.contains(&seg[0]) {
            let name = seg[0].clone();
            let err = Fallacy::UnknownCommand(name);
            proof {
                assert(pipeline_runs(*registry, cd, i, prev, *store, *config, *store, Err(err)));
            }
            return Err(err);
        }
        let ghost pre = *store;
        let ghost prev_ghost = prev;
        let input = CommandInput::from_output(seg, prev);
        let h = registry.invoke(input, store, config);
        proof {
            assert(registry.handler_post(
                cd[i],
                spec_prior(prev_ghost),
                pre,
                *store,
                *config,
                h,
            ));
        }
        match h {
            Ok(out) => {
                proof {
                    assert forall|sf: S, rr: Result<CommandOutput, Fallacy>|
                        #[trigger] pipeline_runs(
                            *registry,
                            cd,
                            i + 1,
                            out,
                            *store,
                            *config,
                            sf,
                            rr,
                        ) implies pipeline_runs(
                        *registry,
                        cd,
                        0,
                        CommandOutput::Silent,
                        s0,
                        *config,
                        sf,
                        rr,
                    ) by {
                        assert(pipeline_runs(*registry, cd, i, prev_ghost, pre, *config, sf, rr));
                    }
                    i = i + 1;
                }
                prev = out;
            },
            Err(e) => {
                proof {
                    assert(pipeline_runs(*registry, cd, i, prev_ghost, pre, *config, *store, Err(e)));
                }
                return Err(e);
            },
        }
    }
    proof {
        assert(i == cd.len());
        assert(pipeline_runs(*registry, cd, i, prev, *store, *config, *store, Ok(prev)));
    }
    Ok(prev)
}

/// One raw line, start to finish: tokenize it, then run the chain. The
/// tokenizer never fails, so the result is exactly what [`run`]
/// promises of the tokenized line.
pub fn execute_line<S, C, R: CommandSet<S, C>>(
    registry: &R,
    line: &str,
    store: &mut S,
    config: &C,
) -> (r: Result<CommandOutput, Fallacy>)
    ensures
        run_post(
            *registry,
            crate::tokenize::spec_tokenize(line@),
            *old(store),
            *final(store),
            *config,
            r,
        ),
{
    let chain = crate::tokenize::tokenize(line);
    run(registry, chain, store, config)
}

} // verus!
