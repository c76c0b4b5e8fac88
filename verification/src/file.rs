//! Sending a file in reply to a request, buffer by buffer.

use vstd::prelude::*;

use crate::http::{file_headers, headers_of_file, headers_view, Header};

verus! {

/// The most that is read of a file at once, in bytes.
pub const BUFFER_LEN: usize = 8192;

/// How far the sending has come.
#[derive(Debug, Clone, Copy, PartialEq, Eq, Structural)]
pub enum FileStage {
    /// The file is being opened.
    Opening,
    /// Headers or data are being sent.
    Sending,
    /// The file is being read.
    Reading,
    /// There is nothing left to do.
    Done,
}

/// The outcome of the work that a stage waits for.
#[derive(Debug)]
pub enum FileEvent {
    /// The file is open, and of this length.
    Opened { len: u64 },
    /// What was to be sent is sent.
    Sent,
    /// The file gave these bytes, no more than were asked for; none at its end.
    Read(Vec<u8>),
}

/// The work to do next.
#[derive(Debug)]
pub enum FileAction {
    /// Send these headers.
    SendHeaders(Vec<Header>),
    /// Read up to so many bytes of the file.
    Read { at_most: usize },
    /// Send these bytes of the body.
    SendData(Vec<u8>),
    /// Mark the reply as complete.
    Finish,
}

/// The event is an outcome of the work that the stage waits for.
pub open spec fn file_awaits(stage: FileStage, event: FileEvent) -> bool {
    match stage {
        FileStage::Opening => event is Opened,
        FileStage::Sending => event is Sent,
        FileStage::Reading => {
            event matches FileEvent::Read(data) && data@.len() <= BUFFER_LEN
        },
        FileStage::Done => false,
    }
}

impl FileStage {
    /// Whether the event is an outcome of the work that the stage waits for.
    pub fn takes(&self, event: &FileEvent) -> (yes: bool)
        ensures
            yes == file_awaits(*self, *event),
    {
        match (self, event) {
            (FileStage::Opening, FileEvent::Opened { .. }) => true,
            (FileStage::Sending, FileEvent::Sent) => true,
            (FileStage::Reading, FileEvent::Read(data)) => data.len() <= BUFFER_LEN,
            _ => false,
        }
    }
}

/// What follows a read: its bytes are sent, or, at the end of the file, the
/// reply is complete.
pub open spec fn after_read(data: Vec<u8>) -> (FileStage, FileAction) {
    if data@.len() == 0 {
        (FileStage::Done, FileAction::Finish)
    } else {
        (FileStage::Sending, FileAction::SendData(data))
    }
}

/// What follows an event: the headers, once the file is open; the next read,
/// once something is sent; and after a read what `after_read` says.
pub open spec fn is_file_step(event: FileEvent, next: (FileStage, FileAction)) -> bool {
    match event {
        FileEvent::Opened { len } => {
            &&& next.0 == FileStage::Sending
            &&& next.1 matches FileAction::SendHeaders(headers)
            &&& headers_view(headers@) == headers_of_file(len)
        },
        FileEvent::Sent => next == (FileStage::Reading, FileAction::Read { at_most: BUFFER_LEN }),
        FileEvent::Read(data) => next == after_read(data),
    }
}

/// Takes the outcome of the work that the stage waits for, and gives the next
/// stage and its work. No piece of the body is empty or longer than what is
/// read at once.
pub fn send_file(stage: FileStage, event: FileEvent) -> (next: (FileStage, FileAction))
    requires
        file_awaits(stage, event),
    ensures
        is_file_step(event, next),
        next.1 matches FileAction::SendData(data) ==> 1 <= data@.len() <= BUFFER_LEN,
{
    match event {
        FileEvent::Opened { len } => {
            (FileStage::Sending, FileAction::SendHeaders(file_headers(len)))
        },
        FileEvent::Sent => (FileStage::Reading, FileAction::Read { at_most: BUFFER_LEN }),
        FileEvent::Read(data) => if data.len() == 0 {
            (FileStage::Done, FileAction::Finish)
        } else {
            (FileStage::Sending, FileAction::SendData(data))
        },
    }
}

/// The body that goes out where the file gives these reads, one after another.
pub open spec fn body_sent(reads: Seq<Vec<u8>>) -> Seq<u8>
    decreases reads.len(),
{
    if reads.len() == 0 {
        Seq::empty()
    } else {
        match after_read(reads[0]).1 {
            FileAction::SendData(data) => data@ + body_sent(reads.skip(1)),
            _ => Seq::empty(),
        }
    }
}

/// All the bytes of some reads, one after another.
pub open spec fn all_bytes(reads: Seq<Vec<u8>>) -> Seq<u8>
    decreases reads.len(),
{
    if reads.len() == 0 {
        Seq::empty()
    } else {
        reads[0]@ + all_bytes(reads.skip(1))
    }
}

/// The body is all that was read of the file up to its end, in order: where
/// `n` reads gave bytes and the next gave none, it is the bytes of these `n`.
pub proof fn the_body_is_the_whole_file(reads: Seq<Vec<u8>>, n: int)
    requires
        ends_after(reads, n),
    ensures
        body_sent(reads) == all_bytes(reads.take(n)),
    decreases n,
{
    if n > 0 {
        let rest = reads.skip(1);
        assert forall|i: int| 0 <= i < n - 1 implies (#[trigger] rest[i])@.len() > 0 by {
            assert(rest[i] == reads[i + 1]);
        }
        the_body_is_the_whole_file(rest, n - 1);
        assert(reads.take(n).skip(1) =~= rest.take(n - 1));
    }
}

/// The work that is done from a stage on, each piece a step from the one before
/// and the last one leaving nothing to do, where the file gives these reads.
pub open spec fn is_file_work(
    stage: FileStage,
    event: FileEvent,
    reads: Seq<Vec<u8>>,
    work: Seq<FileAction>,
) -> bool
    decreases work.len(),
{
    &&& work.len() > 0
    &&& file_awaits(stage, event)
    &&& match work[0] {
        FileAction::Finish => is_file_step(event, (FileStage::Done, work[0])) && work.len() == 1,
        FileAction::Read { .. } => {
            &&& is_file_step(event, (FileStage::Reading, work[0]))
            &&& reads.len() > 0
            &&& is_file_work(
                FileStage::Reading,
                FileEvent::Read(reads[0]),
                reads.skip(1),
                work.skip(1),
            )
        },
        _ => {
            &&& is_file_step(event, (FileStage::Sending, work[0]))
            &&& is_file_work(FileStage::Sending, FileEvent::Sent, reads, work.skip(1))
        },
    }
}

/// The first `n` reads gave bytes, and the next one gave none.
pub open spec fn ends_after(reads: Seq<Vec<u8>>, n: int) -> bool {
    &&& 0 <= n < reads.len()
    &&& forall|i: int| 0 <= i < n ==> (#[trigger] reads[i])@.len() > 0
    &&& reads[n]@.len() == 0
}

/// After something is sent, reads and what they gave alternate up to the end.
proof fn lemma_work_after_sending(reads: Seq<Vec<u8>>, n: int, work: Seq<FileAction>)
    requires
        is_file_work(FileStage::Sending, FileEvent::Sent, reads, work),
        ends_after(reads, n),
    ensures
        work.len() == 2 * n + 2,
        forall|k: int|
            0 <= k <= n ==> #[trigger] work[2 * k] == (FileAction::Read { at_most: BUFFER_LEN }),
        forall|k: int|
            0 <= k < n ==> #[trigger] work[2 * k + 1] == FileAction::SendData(reads[k]),
        work[2 * n + 1] == FileAction::Finish,
    decreases n,
{
    let answer = work.skip(1);
    assert(work[0] == (FileAction::Read { at_most: BUFFER_LEN }));
    assert(is_file_work(FileStage::Reading, FileEvent::Read(reads[0]), reads.skip(1), answer));
    assert(answer[0] == work[1]);
    if n > 0 {
        let rest = reads.skip(1);
        let later = answer.skip(1);
        assert(reads[0]@.len() > 0);
        assert(answer[0] == FileAction::SendData(reads[0]));
        assert(is_file_work(FileStage::Sending, FileEvent::Sent, rest, later));
        assert(ends_after(rest, n - 1)) by {
            assert forall|i: int| 0 <= i < n - 1 implies (#[trigger] rest[i])@.len() > 0 by {
                assert(rest[i] == reads[i + 1]);
            }
        }
        lemma_work_after_sending(rest, n - 1, later);
        assert forall|k: int| 0 <= k <= n implies #[trigger] work[2 * k] == (FileAction::Read {
            at_most: BUFFER_LEN,
        }) by {
            if k > 0 {
                assert(work[2 * k] == later[2 * (k - 1)]);
            }
        }
        assert forall|k: int| 0 <= k < n implies #[trigger] work[2 * k + 1]
            == FileAction::SendData(reads[k]) by {
            if k > 0 {
                assert(work[2 * k + 1] == later[2 * (k - 1) + 1]);
                assert(rest[k - 1] == reads[k]);
            }
        }
        assert(work[2 * n + 1] == later[2 * (n - 1) + 1]);
    }
}

/// The work on a file, from its opening to its end. The headers come first, with
/// the file's length, and come once. Then the file is read up to its end, each
/// read but the last followed by the sending of just what it gave. The reply is
/// complete after the first empty read, and that is the last word.
pub proof fn a_file_is_sent_in_order(
    len: u64,
    reads: Seq<Vec<u8>>,
    n: int,
    work: Seq<FileAction>,
)
    requires
        is_file_work(FileStage::Opening, FileEvent::Opened { len }, reads, work),
        ends_after(reads, n),
    ensures
        work.len() == 2 * n + 3,
        work[0] matches FileAction::SendHeaders(headers) && headers_view(headers@)
            == headers_of_file(len),
        forall|k: int|
            0 <= k <= n ==> #[trigger] work[2 * k + 1] == (FileAction::Read {
                at_most: BUFFER_LEN,
            }),
        forall|k: int|
            0 <= k < n ==> #[trigger] work[2 * k + 2] == FileAction::SendData(reads[k]),
        work.last() == FileAction::Finish,
        forall|i: int| 0 < i < work.len() ==> !(#[trigger] work[i] is SendHeaders),
        forall|i: int| 0 <= i < work.len() - 1 ==> !(#[trigger] work[i] is Finish),
{
    let later = work.skip(1);
    lemma_work_after_sending(reads, n, later);
    assert forall|k: int| 0 <= k <= n implies #[trigger] work[2 * k + 1] == (FileAction::Read {
        at_most: BUFFER_LEN,
    }) by {
        assert(work[2 * k + 1] == later[2 * k]);
    }
    assert forall|k: int| 0 <= k < n implies #[trigger] work[2 * k + 2] == FileAction::SendData(
        reads[k],
    ) by {
        assert(work[2 * k + 2] == later[2 * k + 1]);
    }
    assert(work.last() == later[2 * n + 1]);
    assert forall|i: int| 0 < i < work.len() implies !(#[trigger] work[i] is SendHeaders) && (i
        < work.len() - 1 ==> !(work[i] is Finish)) by {
        if i % 2 == 1 {
            assert(work[2 * (i / 2) + 1] is Read);
        } else if i < work.len() - 1 {
            assert(work[2 * (i / 2 - 1) + 2] is SendData);
        }
    }
}

/// Of what `send_file` says to do, for every outcome of the work before. An open
/// file is followed by the headers that `file_headers` makes of its length; what
/// was sent, by a read of up to 8 KiB; what was read, by the sending of just
/// that; and an empty read, by the end of the reply, which nothing else is
/// followed by.
pub proof fn what_is_read_is_sent_until_nothing_is(
    stage: FileStage,
    event: FileEvent,
    next: (FileStage, FileAction),
    len: u64,
    expected: Vec<Header>,
)
    requires
        call_ensures(send_file, (stage, event), next),
        call_ensures(file_headers, (len,), expected),
    ensures
        event == (FileEvent::Opened { len }) ==> {
            &&& next.1 matches FileAction::SendHeaders(headers)
            &&& headers@.len() == expected@.len()
            &&& forall|i: int|
                0 <= i < headers@.len() ==> {
                    &&& (#[trigger] headers@[i]).name@ == expected@[i].name@
                    &&& headers@[i].value@ == expected@[i].value@
                }
        },
        next.1 is SendHeaders <==> event is Opened,
        next.1 is Read <==> event is Sent,
        next.1 matches FileAction::Read { at_most } ==> at_most == 8192,
        event matches FileEvent::Read(data) ==> match next.1 {
            FileAction::SendData(sent) => sent@ == data@ && 1 <= sent@.len() <= 8192,
            FileAction::Finish => data@.len() == 0,
            _ => false,
        },
        next.1 is SendData ==> event is Read,
        next.1 is Finish ==> event is Read,
        next.0 is Done <==> next.1 is Finish,
{
    if event == (FileEvent::Opened { len }) {
        let headers = next.1->SendHeaders_0;
        assert(headers_view(headers@).len() == headers@.len());
        assert(headers_view(expected@).len() == expected@.len());
        assert forall|i: int| 0 <= i < headers@.len() implies {
            &&& (#[trigger] headers@[i]).name@ == expected@[i].name@
            &&& headers@[i].value@ == expected@[i].value@
        } by {
            assert(headers_view(headers@)[i] == headers@[i]@);
            assert(headers_view(expected@)[i] == expected@[i]@);
        }
    }
}

/// The work that `send_file` names is what the stage beside it waits for: that
/// stage takes every outcome of that work, a read of more than 8 KiB being none,
/// and takes nothing else. Before all of it, what is taken is an open file.
pub proof fn a_file_stage_takes_the_outcome_of_its_work(
    stage: FileStage,
    event: FileEvent,
    next: (FileStage, FileAction),
    later: FileEvent,
    yes: bool,
    first: bool,
)
    requires
        call_ensures(send_file, (stage, event), next),
        call_ensures(FileStage::takes, (&next.0, &later), yes),
        call_ensures(FileStage::takes, (&FileStage::Opening, &later), first),
    ensures
        first <==> later is Opened,
        yes <==> match next.1 {
            FileAction::SendHeaders(_) => later is Sent,
            FileAction::SendData(_) => later is Sent,
            FileAction::Read { .. } => later matches FileEvent::Read(data) && data@.len() <= 8192,
            FileAction::Finish => false,
        },
{
}

} // verus!
