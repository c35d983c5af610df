//! The storage directory as contracts see it, and what exchanges do to it
//! when every action they name is carried out and reported back.
//!
//! Nothing here runs. The library never touches a file: a driver does, one
//! action at a time. This module says what a storage directory holds after a
//! driver has done so, and proves from the transition table what then holds
//! of uploads and downloads, alone and side by side.

use crate::codec::{is_generated, lemma_generated_is_identifier};
use crate::handler::{download_start, upload_start};
use crate::response::BodyView;
use crate::router::{lemma_identifier_is_routed, route_of, Method, RouteView, DOWNLOAD_PREFIX};
use crate::transfer::{
    awaits, other_failure, step_spec, storage_failure, success, ActionView, EventView, Outcome,
    StateView,
};
use vstd::prelude::*;
use vstd::utf8::encode_utf8;

verus! {

/// The storage directory: for the name of every file in it, the bytes of
/// that file. The directory is flat, and a file is nothing but its bytes.
pub type Disk = Map<Seq<char>, Seq<u8>>;

/// The bytes of the file `name`, if there is such a file.
pub open spec fn file(disk: Disk, name: Seq<char>) -> Option<Seq<u8>> {
    if disk.dom().contains(name) {
        Some(disk[name])
    } else {
        None
    }
}

/// The bytes that a response body puts on the wire: a text goes out in
/// UTF-8, and a file goes out as the bytes that the storage directory holds
/// for it.
pub open spec fn wire_bytes(disk: Disk, body: BodyView) -> Seq<u8> {
    match body {
        BodyView::Empty => Seq::empty(),
        BodyView::Text(text) => encode_utf8(text),
        BodyView::File(name) => disk[name],
    }
}

/// An exchange between two steps: where it stands, and the action that it
/// named last, which the driver is carrying out.
pub struct Exchange {
    pub state: StateView,
    pub pending: ActionView,
}

/// The exchange that a step leaves behind.
pub open spec fn after(step: (StateView, ActionView)) -> Exchange {
    Exchange { state: step.0, pending: step.1 }
}

/// The name of the file that an exchange works on, while it works on one.
pub open spec fn file_of(exchange: Exchange) -> Option<Seq<char>> {
    match exchange.state {
        StateView::Opening { name } => Some(name),
        StateView::Creating { name } => Some(name),
        StateView::ReadingBody { name } => Some(name),
        StateView::WritingChunk { name } => Some(name),
        StateView::Closed(_) => None,
    }
}

/// What the storage directory holds once `event` has been reported to an
/// exchange. A creation that is reported done has left the file of the
/// exchange empty, whether or not there was such a file before. A write that
/// is reported done has put the bytes handed out at the end of that file.
/// Nothing else is taken to change any file: what a write that failed has
/// left behind of its chunk is not told here.
pub open spec fn effect(disk: Disk, exchange: Exchange, event: EventView) -> Disk {
    match exchange.pending {
        ActionView::Create(name) => if exchange.state == (StateView::Creating { name }) && event
            is Created {
            disk.insert(name, Seq::empty())
        } else {
            disk
        },
        ActionView::Write(bytes) => match exchange.state {
            StateView::WritingChunk { name } => if event is Written && disk.dom().contains(name) {
                disk.insert(name, disk[name] + bytes)
            } else {
                disk
            },
            _ => disk,
        },
        _ => disk,
    }
}

/// Whether a driver that works on `disk` can report `event` to an exchange:
/// the event is one that the exchange waits for, and a file that is not
/// there is never reported open.
pub open spec fn truthful(disk: Disk, exchange: Exchange, event: EventView) -> bool {
    &&& awaits(exchange.state, event)
    &&& exchange.pending matches ActionView::Open(name) ==> (event is Opened
        ==> disk.dom().contains(name))
}

/// One exchange taken through a sequence of events, oldest first: what the
/// storage directory holds at the end, and where the exchange stands.
pub open spec fn drive(disk: Disk, exchange: Exchange, events: Seq<EventView>) -> (Disk, Exchange)
    decreases events.len(),
{
    if events.len() == 0 {
        (disk, exchange)
    } else {
        let (earlier, before) = drive(disk, exchange, events.drop_last());
        (effect(earlier, before, events.last()), after(step_spec(before.state, events.last())))
    }
}

/// What an upload meets up to the last chunk of its body when nothing fails:
/// the file is created, then every chunk is read and is written before the
/// next one is read.
pub open spec fn upload_events(chunks: Seq<Seq<u8>>) -> Seq<EventView>
    decreases chunks.len(),
{
    if chunks.len() == 0 {
        seq![EventView::Created]
    } else {
        upload_events(chunks.drop_last()).push(EventView::Chunk(chunks.last())).push(
            EventView::Written,
        )
    }
}

/// One more event takes an exchange one step further.
pub proof fn lemma_drive_push(
    disk: Disk,
    exchange: Exchange,
    events: Seq<EventView>,
    event: EventView,
)
    ensures
        drive(disk, exchange, events.push(event)) == ({
            let (earlier, before) = drive(disk, exchange, events);
            (effect(earlier, before, event), after(step_spec(before.state, event)))
        }),
{
    assert(events.push(event).drop_last() =~= events);
}

/// While nothing fails, an upload keeps in its file the chunks that came so
/// far, laid end to end in the order of arrival, and waits for the next one.
/// No other file is touched.
pub proof fn lemma_upload_in_progress(disk: Disk, name: Seq<char>, chunks: Seq<Seq<u8>>)
    ensures
        drive(disk, after(upload_start(name)), upload_events(chunks)) == (
            disk.insert(name, chunks.flatten()),
            Exchange { state: StateView::ReadingBody { name }, pending: ActionView::ReadBody },
        ),
    decreases chunks.len(),
{
    let start = after(upload_start(name));
    if chunks.len() == 0 {
        lemma_drive_push(disk, start, Seq::empty(), EventView::Created);
    } else {
        let earlier = chunks.drop_last();
        let chunk = chunks.last();
        let events = upload_events(earlier);
        lemma_upload_in_progress(disk, name, earlier);
        lemma_drive_push(disk, start, events, EventView::Chunk(chunk));
        lemma_drive_push(disk, start, events.push(EventView::Chunk(chunk)), EventView::Written);
        earlier.lemma_flatten_push(chunk);
        assert(earlier.push(chunk) =~= chunks);
        let stored = disk.insert(name, earlier.flatten());
        assert(stored.insert(name, stored[name] + chunk) =~= disk.insert(name, chunks.flatten()));
    }
}

/// An upload on which nothing fails stores the request body, whatever way
/// the body is cut into chunks: at the end the file of the upload holds the
/// chunks laid end to end, every other file is as it was, the exchange is
/// closed in success, and its response is the name of the file, with status
/// 200.
pub proof fn lemma_upload_stores_body(disk: Disk, name: Seq<char>, chunks: Seq<Seq<u8>>)
    ensures
        drive(disk, after(upload_start(name)), upload_events(chunks).push(EventView::EndOfBody))
            == (disk.insert(name, chunks.flatten()), after(success(BodyView::Text(name)))),
{
    lemma_upload_in_progress(disk, name, chunks);
    lemma_drive_push(
        disk,
        after(upload_start(name)),
        upload_events(chunks),
        EventView::EndOfBody,
    );
}

/// An upload ends at the first thing that fails: a request body that breaks
/// off, or a chunk that cannot be written. The exchange closes as failed and
/// the error goes to the transport in place of a response. The file is not
/// removed, and whatever is reported afterwards changes neither a file nor
/// the outcome.
pub proof fn lemma_failed_upload_ends(
    disk: Disk,
    name: Seq<char>,
    chunks: Seq<Seq<u8>>,
    chunk: Seq<u8>,
    message: Seq<char>,
    later: EventView,
)
    ensures
        ({
            let start = after(upload_start(name));
            let broken = upload_events(chunks).push(EventView::BodyFailed(message));
            let unwritten = upload_events(chunks).push(EventView::Chunk(chunk)).push(
                EventView::WriteFailed(message),
            );
            let closed = Exchange {
                state: StateView::Closed(Outcome::Failed),
                pending: ActionView::Done,
            };
            &&& drive(disk, start, broken).1 == after(other_failure(message))
            &&& drive(disk, start, unwritten).1 == after(storage_failure(message))
            &&& file(drive(disk, start, broken).0, name) is Some
            &&& file(drive(disk, start, unwritten).0, name) is Some
            &&& drive(disk, start, broken.push(later)) == (drive(disk, start, broken).0, closed)
            &&& drive(disk, start, unwritten.push(later)) == (
                drive(disk, start, unwritten).0,
                closed,
            )
        }),
{
    let start = after(upload_start(name));
    let written = upload_events(chunks);
    lemma_upload_in_progress(disk, name, chunks);
    lemma_drive_push(disk, start, written, EventView::BodyFailed(message));
    lemma_drive_push(disk, start, written.push(EventView::BodyFailed(message)), later);
    lemma_drive_push(disk, start, written, EventView::Chunk(chunk));
    lemma_drive_push(
        disk,
        start,
        written.push(EventView::Chunk(chunk)),
        EventView::WriteFailed(message),
    );
    lemma_drive_push(
        disk,
        start,
        written.push(EventView::Chunk(chunk)).push(EventView::WriteFailed(message)),
        later,
    );
}

/// What goes up comes down, under the name that the upload answered with.
///
/// Take an upload into a file with a generated name, on which nothing fails.
/// Its response is that name. A GET of the download prefix followed by the
/// name is routed to that file, the file is there to be opened, and once it
/// is open the response has status 200 and puts on the wire exactly the bytes
/// of the request body, in order, however the body was cut into chunks.
pub proof fn lemma_upload_then_download(disk: Disk, name: Seq<char>, chunks: Seq<Seq<u8>>)
    requires
        is_generated(name),
    ensures
        ({
            let (stored, uploaded) = drive(
                disk,
                after(upload_start(name)),
                upload_events(chunks).push(EventView::EndOfBody),
            );
            let (kept, downloaded) = drive(
                stored,
                after(download_start(name)),
                seq![EventView::Opened],
            );
            &&& uploaded == after(success(BodyView::Text(name)))
            &&& route_of(Method::Get, DOWNLOAD_PREFIX@ + name) == RouteView::Download(name)
            &&& truthful(stored, after(download_start(name)), EventView::Opened)
            &&& downloaded == after(success(BodyView::File(name)))
            &&& wire_bytes(kept, BodyView::File(name)) == chunks.flatten()
        }),
{
    lemma_upload_stores_body(disk, name, chunks);
    lemma_generated_is_identifier(name);
    lemma_identifier_is_routed(name);
    let stored = disk.insert(name, chunks.flatten());
    lemma_drive_push(stored, after(download_start(name)), Seq::empty(), EventView::Opened);
}

/// The download of a file that is not there fails: whatever a truthful
/// driver reports, the exchange closes as failed, the error goes to the
/// transport, and no response is made, least of all a success with nothing
/// in it.
pub proof fn lemma_missing_file_fails(disk: Disk, name: Seq<char>, event: EventView)
    requires
        !disk.dom().contains(name),
        truthful(disk, after(download_start(name)), event),
    ensures
        event matches EventView::OpenFailed(message) && step_spec(
            download_start(name).0,
            event,
        ) == storage_failure(message),
        drive(disk, after(download_start(name)), seq![event]).0 == disk,
{
    lemma_drive_push(disk, after(download_start(name)), Seq::empty(), event);
}

/// Exchanges in flight side by side over one storage directory.
pub struct World {
    pub disk: Disk,
    pub exchanges: Seq<Exchange>,
}

/// One turn of a schedule: this event is reported to the exchange at this
/// index.
pub struct Turn {
    pub exchange: int,
    pub event: EventView,
}

/// The world after one turn: the exchange that the turn names takes its
/// step, and the storage directory takes the effect of what was reported to
/// it. A turn that names no exchange changes nothing.
pub open spec fn take_turn(world: World, turn: Turn) -> World {
    if 0 <= turn.exchange < world.exchanges.len() {
        let before = world.exchanges[turn.exchange];
        World {
            disk: effect(world.disk, before, turn.event),
            exchanges: world.exchanges.update(
                turn.exchange,
                after(step_spec(before.state, turn.event)),
            ),
        }
    } else {
        world
    }
}

/// The world after a whole schedule, oldest turn first. The schedule fixes
/// how the steps of the exchanges fall between one another.
pub open spec fn play(world: World, schedule: Seq<Turn>) -> World
    decreases schedule.len(),
{
    if schedule.len() == 0 {
        world
    } else {
        take_turn(play(world, schedule.drop_last()), schedule.last())
    }
}

/// The events that a schedule reports to one exchange, in order.
pub open spec fn events_of(schedule: Seq<Turn>, exchange: int) -> Seq<EventView>
    decreases schedule.len(),
{
    if schedule.len() == 0 {
        Seq::empty()
    } else if schedule.last().exchange == exchange {
        events_of(schedule.drop_last(), exchange).push(schedule.last().event)
    } else {
        events_of(schedule.drop_last(), exchange)
    }
}

/// No two exchanges work on a file of the same name.
pub open spec fn apart(exchanges: Seq<Exchange>) -> bool {
    forall|i: int, j: int|
        0 <= i < j < exchanges.len() && file_of(exchanges[i]) is Some ==> file_of(exchanges[i])
            != file_of(exchanges[j])
}

/// A step never takes an exchange to another file: it stays with the file
/// it has, or it closes.
pub proof fn lemma_step_keeps_file(exchange: Exchange, event: EventView)
    ensures
        ({
            let next = after(step_spec(exchange.state, event));
            file_of(next) is None || file_of(next) == file_of(exchange)
        }),
{
}

/// What is reported to an exchange changes no file but its own.
pub proof fn lemma_effect_is_local(
    disk: Disk,
    exchange: Exchange,
    event: EventView,
    name: Seq<char>,
)
    requires
        file_of(exchange) != Some(name),
    ensures
        file(effect(disk, exchange, event), name) == file(disk, name),
{
}

/// What an event does to the file of an exchange depends on no other file.
pub proof fn lemma_effect_reads_own_file(
    first: Disk,
    second: Disk,
    exchange: Exchange,
    event: EventView,
    name: Seq<char>,
)
    requires
        file(first, name) == file(second, name),
        file_of(exchange) is None || file_of(exchange) == Some(name),
    ensures
        file(effect(first, exchange, event), name) == file(effect(second, exchange, event), name),
{
}

/// However the turns fall, every exchange keeps to its file.
pub proof fn lemma_play_keeps_files(world: World, schedule: Seq<Turn>)
    ensures
        play(world, schedule).exchanges.len() == world.exchanges.len(),
        forall|i: int|
            0 <= i < world.exchanges.len() ==> {
                let end = #[trigger] play(world, schedule).exchanges[i];
                file_of(end) is None || file_of(end) == file_of(world.exchanges[i])
            },
    decreases schedule.len(),
{
    if schedule.len() > 0 {
        let earlier = play(world, schedule.drop_last());
        let turn = schedule.last();
        lemma_play_keeps_files(world, schedule.drop_last());
        if 0 <= turn.exchange < earlier.exchanges.len() {
            lemma_step_keeps_file(earlier.exchanges[turn.exchange], turn.event);
        }
    }
}

/// Exchanges that work on files of different names do not get in each
/// other's way. However their steps fall between one another, each exchange
/// ends where it would have ended alone, on the events reported to it, and
/// its file holds what it would then hold.
pub proof fn lemma_exchanges_keep_apart(world: World, schedule: Seq<Turn>, i: int)
    requires
        apart(world.exchanges),
        0 <= i < world.exchanges.len(),
    ensures
        ({
            let together = play(world, schedule);
            let alone = drive(world.disk, world.exchanges[i], events_of(schedule, i));
            &&& together.exchanges.len() == world.exchanges.len()
            &&& together.exchanges[i] == alone.1
            &&& file_of(world.exchanges[i]) matches Some(name) ==> file(together.disk, name)
                == file(alone.0, name)
        }),
    decreases schedule.len(),
{
    lemma_play_keeps_files(world, schedule);
    if schedule.len() > 0 {
        let earlier = schedule.drop_last();
        let turn = schedule.last();
        let together = play(world, earlier);
        let alone = drive(world.disk, world.exchanges[i], events_of(earlier, i));
        lemma_exchanges_keep_apart(world, earlier, i);
        lemma_play_keeps_files(world, earlier);
        if turn.exchange == i {
            lemma_drive_push(world.disk, world.exchanges[i], events_of(earlier, i), turn.event);
            match file_of(world.exchanges[i]) {
                Some(name) => {
                    lemma_effect_reads_own_file(together.disk, alone.0, alone.1, turn.event, name);
                },
                None => {},
            }
        } else if 0 <= turn.exchange < world.exchanges.len() {
            match file_of(world.exchanges[i]) {
                Some(name) => {
                    let other = together.exchanges[turn.exchange];
                    assert(file_of(other) is None || file_of(other) == file_of(
                        world.exchanges[turn.exchange],
                    ));
                    lemma_effect_is_local(together.disk, other, turn.event, name);
                },
                None => {},
            }
        }
    }
}

/// Uploads in flight side by side, each into a file of its own name, do not
/// mix their bodies. However their steps fall between one another, when
/// nothing fails every upload ends in success, answers with the name of its
/// own file, and that file holds the chunks of its own body laid end to end.
pub proof fn lemma_uploads_do_not_mix(
    disk: Disk,
    names: Seq<Seq<char>>,
    bodies: Seq<Seq<Seq<u8>>>,
    schedule: Seq<Turn>,
)
    requires
        names.len() == bodies.len(),
        forall|i: int, j: int| 0 <= i < j < names.len() ==> names[i] != names[j],
        forall|i: int|
            0 <= i < names.len() ==> #[trigger] events_of(schedule, i) == upload_events(
                bodies[i],
            ).push(EventView::EndOfBody),
    ensures
        ({
            let start = World {
                disk,
                exchanges: Seq::new(names.len(), |i: int| after(upload_start(names[i]))),
            };
            let end = play(start, schedule);
            forall|i: int|
                0 <= i < names.len() ==> {
                    &&& end.exchanges[i] == after(success(BodyView::Text(#[trigger] names[i])))
                    &&& file(end.disk, names[i]) == Some(bodies[i].flatten())
                }
        }),
{
    let start = World {
        disk,
        exchanges: Seq::new(names.len(), |i: int| after(upload_start(names[i]))),
    };
    let end = play(start, schedule);
    assert forall|i: int| 0 <= i < names.len() implies {
        &&& end.exchanges[i] == after(success(BodyView::Text(#[trigger] names[i])))
        &&& file(end.disk, names[i]) == Some(bodies[i].flatten())
    } by {
        lemma_exchanges_keep_apart(start, schedule, i);
        lemma_upload_stores_body(disk, names[i], bodies[i]);
    }
}

} // verus!
