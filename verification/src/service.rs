//! Whole requests: what each one asks for, the walk that serves it, and the
//! walk run to its end against a store in memory.

use vstd::prelude::*;
use crate::handler::{
    create_begin, create_media_handler, delete_begin, delete_media_handler, edit_begin,
    edit_media_handler, generate_begin, generate_random_media, get_begin, get_media_by_id,
    lemma_resume_lowers_rank, list_begin, media_list_handler, resume, resume_spec, Step, StepView,
};
use crate::ident::uuid_parse_str;
use crate::memory::MemoryStore;
use crate::model::{Media, MediaView, QueryOptions, UpdateMediaSchema, UpdateMediaSchemaView};
use crate::random::Lots;
use crate::rating::Rating;
use crate::response::{HttpReply, HttpReplyView};
use crate::store::execute_spec;

verus! {

/// A request to the service, as the router hands it on.
#[derive(Debug)]
pub enum Request {
    /// List the entries.
    List(QueryOptions),
    /// Look the entry up whose identifier the path holds.
    Get(String),
    /// Create the entry.
    Create(Media),
    /// Remove the entry whose identifier the path holds.
    Delete(String),
    /// Change the entry whose identifier the path holds.
    Edit(String, UpdateMediaSchema),
    /// Generate one entry for each rating; the ratings are drawn from 0 up
    /// to, not including, 5.
    Generate(Vec<Rating>),
}

/// A request with what counts of it, as a mathematical value.
pub enum RequestView {
    List { limit: i64 },
    Get { path: Seq<char> },
    Create { body: MediaView },
    Delete { path: Seq<char> },
    Edit { path: Seq<char>, patch: UpdateMediaSchemaView },
    Generate { ratings: Seq<Rating> },
}

impl View for Request {
    type V = RequestView;

    open spec fn view(&self) -> RequestView {
        match self {
            Request::List(opts) => RequestView::List { limit: opts.effective_limit() },
            Request::Get(path) => RequestView::Get { path: path@ },
            Request::Create(body) => RequestView::Create { body: body@ },
            Request::Delete(path) => RequestView::Delete { path: path@ },
            Request::Edit(path, patch) => RequestView::Edit { path: path@, patch: patch@ },
            Request::Generate(ratings) => RequestView::Generate { ratings: ratings@ },
        }
    }
}

/// The first step of the walk that serves a request. Of the lots a
/// creation takes the identifier, and a generation all.
pub open spec fn begin_spec(request: RequestView, lots: Lots) -> StepView {
    match request {
        RequestView::List { limit } => list_begin(limit),
        RequestView::Get { path } => get_begin(uuid_parse_str(path)),
        RequestView::Create { body } => create_begin(body, lots.id),
        RequestView::Delete { path } => delete_begin(path, uuid_parse_str(path)),
        RequestView::Edit { path, patch } => edit_begin(path, uuid_parse_str(path), patch),
        RequestView::Generate { ratings } => generate_begin(ratings, lots),
    }
}

/// Takes the first step of the walk that serves a request. A creation
/// mints its identifier and a generation draws its first lots; the step is
/// the one that `begin_spec` gives with them, whichever they are.
pub fn begin(request: Request) -> (step: Step)
    ensures
        exists|lots: Lots| step@ == begin_spec(request@, lots),
{
    match request {
        Request::List(opts) => {
            let step = media_list_handler(&opts);
            assert(step@ == begin_spec(request@, Lots::blank_spec()));
            step
        },
        Request::Get(path) => {
            let step = get_media_by_id(path.as_str());
            assert(step@ == begin_spec(request@, Lots::blank_spec()));
            step
        },
        Request::Create(body) => {
            let step = create_media_handler(body);
            proof {
                let id = choose|id: u128| step@ == create_begin(body@, id);
                assert(step@ == begin_spec(request@, Lots { id, ..Lots::blank_spec() }));
            }
            step
        },
        Request::Delete(path) => {
            let step = delete_media_handler(path.as_str());
            assert(step@ == begin_spec(request@, Lots::blank_spec()));
            step
        },
        Request::Edit(path, patch) => {
            let step = edit_media_handler(path.as_str(), &patch);
            assert(step@ == begin_spec(request@, Lots::blank_spec()));
            step
        },
        Request::Generate(ratings) => {
            let step = generate_random_media(ratings);
            proof {
                let lots = choose|lots: Lots| step@ == generate_begin(ratings@, lots);
                assert(step@ == begin_spec(request@, lots));
            }
            step
        },
    }
}

/// The lots of the given turn: those that stand at its place, or blank
/// lots where the sequence has come to its end.
pub open spec fn lots_at(lots: Seq<Lots>, turn: nat) -> Lots {
    if turn < lots.len() {
        lots[turn as int]
    } else {
        Lots::blank_spec()
    }
}

/// A walk run to its end against a collection of entries: the collection
/// after it, and the answer. Each command goes to the store, and the step
/// after it takes the lots of the turn; the turns are counted on from
/// `turn`.
pub open spec fn run(docs: Seq<MediaView>, step: StepView, lots: Seq<Lots>, turn: nat) -> (
    Seq<MediaView>,
    HttpReplyView,
)
    decreases step.rank(),
{
    match step {
        StepView::Reply(reply) => (docs, reply),
        StepView::Ask { command, pending } => {
            let (after, answer) = execute_spec(docs, command);
            run(after, resume_spec(pending, answer, lots_at(lots, turn)), lots, turn + 1)
        },
    }
}

/// What serving a request does to a collection of entries and answers,
/// with the first of the lots for the first step and the others, one
/// after the other, for the steps that follow.
pub open spec fn outcome(docs: Seq<MediaView>, request: RequestView, lots: Seq<Lots>) -> (
    Seq<MediaView>,
    HttpReplyView,
) {
    run(docs, begin_spec(request, lots_at(lots, 0)), lots, 1)
}

/// Serves a request against the store in memory: walks the steps, sends
/// each command to the store, and returns the answer. What it does is the
/// outcome for the lots that were drawn on the way, whichever they are.
pub fn serve(store: &mut MemoryStore, request: Request) -> (reply: HttpReply)
    ensures
        exists|lots: Seq<Lots>| (final(store)@, reply@) == outcome(old(store)@, request@, lots),
{
    let ghost start = store@;
    let mut step = begin(request);
    let ghost first = choose|lots: Lots| step@ == begin_spec(request@, lots);
    let ghost entry = step@;
    let ghost mut drawn: Seq<Lots> = seq![first];
    loop
        invariant
            forall|lots: Seq<Lots>|
                drawn.is_prefix_of(lots) ==> run(start, entry, lots, 1) == #[trigger] run(
                    store@,
                    step@,
                    lots,
                    drawn.len(),
                ),
            entry == begin_spec(request@, first),
            start == old(store)@,
            drawn.len() >= 1,
            drawn[0] == first,
        decreases step@.rank(),
    {
        match step {
            Step::Reply(reply) => {
                proof {
                    assert(drawn.is_prefix_of(drawn));
                    assert(run(store@, step@, drawn, drawn.len()) == (store@, reply@));
                    assert((store@, reply@) == outcome(old(store)@, request@, drawn));
                }
                return reply;
            },
            Step::Ask { command, pending } => {
                let ghost before = store@;
                let ghost asked = step@;
                let answer = store.execute(command);
                let next = resume(pending, answer);
                proof {
                    let turn = choose|lots: Lots| next@ == resume_spec(pending@, answer@, lots);
                    lemma_resume_lowers_rank(pending@, answer@, turn);
                    let longer = drawn.push(turn);
                    assert forall|lots: Seq<Lots>| longer.is_prefix_of(lots) implies run(
                        start,
                        entry,
                        lots,
                        1,
                    ) == #[trigger] run(store@, next@, lots, longer.len()) by {
                        assert(drawn.is_prefix_of(lots));
                        assert(lots[drawn.len() as int] == longer[drawn.len() as int]);
                        assert(lots_at(lots, drawn.len()) == turn);
                        assert(run(before, asked, lots, drawn.len()) == run(
                            store@,
                            next@,
                            lots,
                            longer.len(),
                        ));
                    }
                    drawn = longer;
                }
                step = next;
            },
        }
    }
}

} // verus!
