use vstd::prelude::*;
use vstd::utf8::encode_utf8;

use crate::file::{base64_decoded, content_bytes, ContentError, Encoding, File};
use crate::mode::mode_bits;
use crate::update::{failure, next, record, start_of, ActionModel, ApplyError, Event, Stage, UpdateModel};

verus! {

/// The state an update reaches and the actions it asks for when the caller
/// reports the events `es` in turn.
pub open spec fn run(u: UpdateModel, es: Seq<Event>) -> (UpdateModel, Seq<ActionModel>)
    decreases es.len(),
{
    if es.len() == 0 {
        (u, Seq::empty())
    } else {
        let (u1, a) = next(u, es[0]);
        let (u2, acts) = run(u1, es.drop_first());
        (u2, seq![a] + acts)
    }
}

/// A file as the disk holds it.
pub struct Stored {
    pub bytes: Seq<u8>,
    pub mode: Option<u32>,
    pub owner: Option<String>,
    pub group: Option<String>,
}

/// What an action does to a disk when it succeeds. Metadata changes on a
/// missing file do nothing.
pub open spec fn effect(d: Map<String, Stored>, a: ActionModel) -> Map<String, Stored> {
    match a {
        ActionModel::Remove(p) => d.remove(p),
        ActionModel::Write(p, b) => if d.contains_key(p) {
            d.insert(p, Stored { bytes: b, ..d[p] })
        } else {
            d.insert(p, Stored { bytes: b, mode: None, owner: None, group: None })
        },
        ActionModel::SetMode(p, m) => if d.contains_key(p) {
            d.insert(p, Stored { mode: Some(m), ..d[p] })
        } else {
            d
        },
        ActionModel::SetOwner(p, u) => if d.contains_key(p) {
            d.insert(p, Stored { owner: Some(u), ..d[p] })
        } else {
            d
        },
        ActionModel::SetGroup(p, g) => if d.contains_key(p) {
            d.insert(p, Stored { group: Some(g), ..d[p] })
        } else {
            d
        },
        ActionModel::Finish => d,
    }
}

pub open spec fn effects(d: Map<String, Stored>, acts: Seq<ActionModel>) -> Map<String, Stored>
    decreases acts.len(),
{
    if acts.len() == 0 {
        d
    } else {
        effects(effect(d, acts[0]), acts.drop_first())
    }
}

/// The events of an update in which every operation succeeds: a start and at
/// most four operations.
pub open spec fn all_done() -> Seq<Event> {
    seq![Event::Done, Event::Done, Event::Done, Event::Done, Event::Done]
}

/// The actions an update asks for when every operation succeeds.
pub open spec fn success_actions(f: &File) -> Seq<ActionModel> {
    run(start_of(f), all_done()).1
}

/// A file without content is removed, whatever metadata it declares: the
/// update asks to remove the path and nothing else, and it succeeds both when
/// the removal succeeds and when the file was already absent. On a disk, the
/// path is absent afterwards.
pub proof fn lemma_absent_content_removes(f: File, first: Event, e: Event, d: Map<String, Stored>)
    requires
        f.content is None,
        e is Done || e is NotFound,
    ensures
        next(start_of(&f), first).1 == ActionModel::Remove(f.path),
        next(next(start_of(&f), first).0, e).1 == ActionModel::Finish,
        next(next(start_of(&f), first).0, e).0.stage == Stage::Finished,
        next(next(start_of(&f), first).0, e).0.errors.len() == 0,
        !effect(d, ActionModel::Remove(f.path)).contains_key(f.path),
        !d.contains_key(f.path) ==> effect(d, ActionModel::Remove(f.path)) =~= d,
{
}

/// Content in the identity encoding is written as its UTF-8 bytes, unchanged.
pub proof fn lemma_identity_writes_text(f: File, first: Event)
    requires
        f.content is Some,
        f.encoding == Encoding::Identity,
    ensures
        next(start_of(&f), first).1 == ActionModel::Write(f.path, encode_utf8(f.content->0@)),
{
}

/// Valid base64 content is written as the bytes it decodes to.
pub proof fn lemma_base64_writes_decoded(f: File, first: Event)
    requires
        f.content is Some,
        f.encoding == Encoding::Base64,
        base64_decoded(f.content->0@) is Some,
    ensures
        next(start_of(&f), first).1 == ActionModel::Write(
            f.path,
            base64_decoded(f.content->0@)->0,
        ),
{
}

/// Content that does not decode fails its update with a decode error, before
/// any operation on disk; the update is over at once.
pub proof fn lemma_undecodable_fails_alone(f: File, es: Seq<Event>)
    requires
        f.content is Some,
        content_bytes(&f) is None,
        es.len() > 0,
    ensures
        run(start_of(&f), es).0.stage == Stage::Finished,
        run(start_of(&f), es).0.errors == seq![ApplyError::Decode(ContentError::InvalidBase64)],
        forall|i: int|
            0 <= i < run(start_of(&f), es).1.len() ==> #[trigger] run(start_of(&f), es).1[i]
                == ActionModel::Finish,
{
    let u1 = next(start_of(&f), es[0]).0;
    assert(u1.stage == Stage::Finished);
    lemma_finished_stays(u1, es.drop_first());
}

proof fn lemma_finished_stays(u: UpdateModel, es: Seq<Event>)
    requires
        u.stage == Stage::Finished,
    ensures
        run(u, es).0 == u,
        forall|i: int| 0 <= i < run(u, es).1.len() ==> #[trigger] run(u, es).1[i] == ActionModel::Finish,
    decreases es.len(),
{
    if es.len() > 0 {
        lemma_finished_stays(u, es.drop_first());
    }
}

/// A valid mode is applied right after a successful write, as exactly the
/// value its octal digits denote.
pub proof fn lemma_valid_mode_applied(f: File, first: Event)
    requires
        f.content is Some,
        content_bytes(&f) is Some,
        f.mode is Some,
        mode_bits(f.mode->0@) is Some,
    ensures
        next(next(start_of(&f), first).0, Event::Done).1 == ActionModel::SetMode(
            f.path,
            mode_bits(f.mode->0@)->0 as u32,
        ),
{
}

proof fn lemma_next_extends(u: UpdateModel, e: Event)
    ensures
        next(u, e).0.mode == u.mode,
        next(u, e).0.stage != Stage::Start,
        u.errors.len() <= next(u, e).0.errors.len(),
        forall|i: int| 0 <= i < u.errors.len() ==> next(u, e).0.errors[i] == u.errors[i],
{
    if let Some(x) = failure(u, e) {
        assert(record(u.errors, Some(x)) == u.errors.push(x));
    }
}

/// The operations on disk in `acts` leave permission bits alone and remove
/// nothing.
pub open spec fn keeps_mode(acts: Seq<ActionModel>) -> bool {
    forall|i: int| 0 <= i < acts.len() ==> !(#[trigger] acts[i] is SetMode) && !(acts[i] is Remove)
}

proof fn lemma_run_without_mode(u: UpdateModel, es: Seq<Event>)
    requires
        u.mode is None,
        !(u.stage == Stage::Start && u.content is Absent),
    ensures
        u.errors.len() <= run(u, es).0.errors.len(),
        forall|i: int| 0 <= i < u.errors.len() ==> run(u, es).0.errors[i] == u.errors[i],
        keeps_mode(run(u, es).1),
    decreases es.len(),
{
    if es.len() > 0 {
        let (u1, a) = next(u, es[0]);
        lemma_next_extends(u, es[0]);
        lemma_run_without_mode(u1, es.drop_first());
        let acts = run(u, es).1;
        assert forall|i: int| 0 <= i < acts.len() implies !(#[trigger] acts[i] is SetMode) && !(
        acts[i] is Remove) by {
            if i > 0 {
                assert(acts[i] == run(u1, es.drop_first()).1[i - 1]);
            }
        }
    }
}

proof fn lemma_effects_keep_mode(d: Map<String, Stored>, acts: Seq<ActionModel>, p: String)
    requires
        keeps_mode(acts),
    ensures
        effects(d, acts).contains_key(p) ==> effects(d, acts)[p].mode == (if d.contains_key(p) {
            d[p].mode
        } else {
            None
        }),
        d.contains_key(p) ==> effects(d, acts).contains_key(p),
    decreases acts.len(),
{
    if acts.len() > 0 {
        let d1 = effect(d, acts[0]);
        assert(!(acts[0] is SetMode) && !(acts[0] is Remove));
        assert(d.contains_key(p) ==> d1.contains_key(p) && d1[p].mode == d[p].mode);
        assert(!d.contains_key(p) && d1.contains_key(p) ==> d1[p].mode is None);
        assert forall|i: int| 0 <= i < acts.drop_first().len() implies !(
        #[trigger] acts.drop_first()[i] is SetMode) && !(acts.drop_first()[i] is Remove) by {
            assert(acts.drop_first()[i] == acts[i + 1]);
        }
        lemma_effects_keep_mode(d1, acts.drop_first(), p);
    }
}

/// An invalid mode fails the update with a permission error but does not stop
/// it: the mode is never set, so a file that existed keeps its mode and a new
/// one has none set, whatever the other operations do.
pub proof fn lemma_invalid_mode_skipped(f: File, es: Seq<Event>, d: Map<String, Stored>)
    requires
        f.content is Some,
        content_bytes(&f) is Some,
        f.mode is Some,
        mode_bits(f.mode->0@) is None,
    ensures
        run(start_of(&f), es).0.errors.len() > 0,
        run(start_of(&f), es).0.errors[0] == ApplyError::InvalidMode(f.mode->0),
        keeps_mode(run(start_of(&f), es).1),
        effects(d, run(start_of(&f), es).1).contains_key(f.path) ==> effects(
            d,
            run(start_of(&f), es).1,
        )[f.path].mode == (if d.contains_key(f.path) {
            d[f.path].mode
        } else {
            None
        }),
{
    let u = start_of(&f);
    assert(u.errors == seq![ApplyError::InvalidMode(f.mode->0)]);
    assert(u.errors[0] == ApplyError::InvalidMode(f.mode->0));
    lemma_run_without_mode(u, es);
    assert(run(u, es).0.errors[0] == u.errors[0]);
    lemma_effects_keep_mode(d, run(start_of(&f), es).1, f.path);
}

/// The path an action operates on, if any.
pub open spec fn target(a: ActionModel) -> Option<String> {
    match a {
        ActionModel::Remove(p) => Some(p),
        ActionModel::Write(p, _) => Some(p),
        ActionModel::SetMode(p, _) => Some(p),
        ActionModel::SetOwner(p, _) => Some(p),
        ActionModel::SetGroup(p, _) => Some(p),
        ActionModel::Finish => None,
    }
}

proof fn lemma_run_targets_own_path(u: UpdateModel, es: Seq<Event>)
    ensures
        forall|i: int|
            0 <= i < run(u, es).1.len() ==> #[trigger] target(run(u, es).1[i]) is None || target(
                run(u, es).1[i],
            ) == Some(u.path),
    decreases es.len(),
{
    if es.len() > 0 {
        let (u1, a) = next(u, es[0]);
        assert(u1.path == u.path);
        lemma_run_targets_own_path(u1, es.drop_first());
        let acts = run(u, es).1;
        assert forall|i: int| 0 <= i < acts.len() implies #[trigger] target(acts[i]) is None
            || target(acts[i]) == Some(u.path) by {
            if i > 0 {
                assert(acts[i] == run(u1, es.drop_first()).1[i - 1]);
            }
        }
    }
}

proof fn lemma_effects_elsewhere(d: Map<String, Stored>, acts: Seq<ActionModel>, p: String, q: String)
    requires
        q != p,
        forall|i: int| 0 <= i < acts.len() ==> #[trigger] target(acts[i]) is None || target(acts[i]) == Some(p),
    ensures
        effects(d, acts).contains_key(q) == d.contains_key(q),
        d.contains_key(q) ==> effects(d, acts)[q] == d[q],
    decreases acts.len(),
{
    if acts.len() > 0 {
        assert(target(acts[0]) is None || target(acts[0]) == Some(p));
        assert forall|i: int| 0 <= i < acts.drop_first().len() implies #[trigger] target(
            acts.drop_first()[i],
        ) is None || target(acts.drop_first()[i]) == Some(p) by {
            assert(acts.drop_first()[i] == acts[i + 1]);
        }
        lemma_effects_elsewhere(effect(d, acts[0]), acts.drop_first(), p, q);
    }
}

/// Applying one file never touches another path: whatever happens to its
/// own operations, every other file on the disk is left as it was. Failures
/// are thereby confined to the file they concern.
pub proof fn lemma_other_paths_untouched(f: File, es: Seq<Event>, d: Map<String, Stored>, q: String)
    requires
        q != f.path,
    ensures
        effects(d, run(start_of(&f), es).1).contains_key(q) == d.contains_key(q),
        d.contains_key(q) ==> effects(d, run(start_of(&f), es).1)[q] == d[q],
{
    lemma_run_targets_own_path(start_of(&f), es);
    lemma_effects_elsewhere(d, run(start_of(&f), es).1, f.path, q);
}

/// Applying a file twice leaves the disk as applying it once, when every
/// operation succeeds.
#[verifier::rlimit(50)]
pub proof fn lemma_idempotent(f: File, d: Map<String, Stored>)
    ensures
        effects(effects(d, success_actions(&f)), success_actions(&f)) =~= effects(
            d,
            success_actions(&f),
        ),
{
    reveal_with_fuel(run, 6);
    reveal_with_fuel(effects, 6);
    let acts = success_actions(&f);
    assert(acts.len() == 5);
    let d1 = effects(d, acts);
    assert(effects(d, acts) == effects(effect(d, acts[0]), acts.drop_first()));
    assert(effects(d1, acts) =~= d1);
}

} // verus!
