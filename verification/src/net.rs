//! Getting onto a wireless network: picking a known network out of a scan,
//! joining it with a bounded number of attempts that back off, and waiting
//! for an address.
//!
//! The radio and the network stack belong to the caller. It starts at
//! [`ConnectStage::Scanning`], performs the action that belongs to the stage
//! it is in, and hands what happened to [`on_connect_event`].

use vstd::prelude::*;
use crate::select_face::Faces;

verus! {

/// How often joining a network is attempted.
pub const MAX_RETRIES: u8 = 10;

/// Seconds between two looks at whether an address has been assigned.
pub const ADDRESS_POLL_SECS: u64 = 1;

/// Why getting onto a network failed.
#[derive(Clone, Copy, Debug, PartialEq, Eq, Structural)]
pub enum ConnectFailure {
    /// The scan ended without showing a known network.
    NetworkNotFound,
    /// Every attempt to join the chosen network was refused.
    JoinFailed,
}

/// Getting onto a network has failed for good.
#[derive(Clone, Copy, Debug, PartialEq, Eq, Structural)]
pub struct NetConnectError {
    pub failure: ConnectFailure,
}

/// Where getting onto a network stands. Every stage names what the caller is
/// busy with.
#[derive(Clone, Copy, Debug, PartialEq, Eq, Structural)]
pub enum ConnectStage {
    /// Taking the next network out of the scan.
    Scanning,
    /// Attempt number `attempt`, counted from one, to join the known network
    /// with index `network`.
    Joining { network: usize, attempt: u8 },
    /// Waiting after attempt number `attempt` was refused.
    BackingOff { network: usize, attempt: u8 },
    /// Looking whether an address has been assigned.
    Polling,
    /// Waiting before the next look.
    PollPause,
    /// On the network, with an address.
    Connected,
    /// Given up.
    Failed(NetConnectError),
}

/// What the caller reports.
#[derive(Debug, PartialEq, Eq)]
pub enum ConnectEvent {
    /// The scan showed a network with this name field, as the radio gives
    /// it: the name, padded with zero bytes.
    Seen(Vec<u8>),
    /// The scan has nothing more to show.
    ScanEnded,
    /// The join was accepted.
    Joined,
    /// The join was refused.
    Refused,
    /// The wait is over.
    Waited,
    /// An address has been assigned.
    AddressUp,
    /// No address has been assigned yet.
    AddressDown,
}

/// A [`ConnectEvent`] as the contracts see it.
pub enum ConnectEventView {
    Seen(Seq<u8>),
    ScanEnded,
    Joined,
    Refused,
    Waited,
    AddressUp,
    AddressDown,
}

impl View for ConnectEvent {
    type V = ConnectEventView;

    open spec fn view(&self) -> ConnectEventView {
        match self {
            ConnectEvent::Seen(name) => ConnectEventView::Seen(name@),
            ConnectEvent::ScanEnded => ConnectEventView::ScanEnded,
            ConnectEvent::Joined => ConnectEventView::Joined,
            ConnectEvent::Refused => ConnectEventView::Refused,
            ConnectEvent::Waited => ConnectEventView::Waited,
            ConnectEvent::AddressUp => ConnectEventView::AddressUp,
            ConnectEvent::AddressDown => ConnectEventView::AddressDown,
        }
    }
}

/// What the caller has to do.
#[derive(Clone, Copy, Debug, PartialEq, Eq, Structural)]
pub enum ConnectAction {
    /// Take the next network out of the scan, starting the scan if need be.
    NextScanResult,
    /// Try to join the known network with this index, using the credential
    /// with the same index.
    Join { network: usize },
    /// Wait this many seconds.
    Wait { secs: u64 },
    /// Look whether an address has been assigned.
    PollAddress,
    /// Nothing: the device is on the network.
    Succeed,
    /// Nothing: report the failure. There is no further attempt.
    Fail(NetConnectError),
}

/// `bytes` without the zero bytes at its front.
pub open spec fn trim_front(bytes: Seq<u8>) -> Seq<u8>
    decreases bytes.len(),
{
    if bytes.len() > 0 && bytes[0] == 0 {
        trim_front(bytes.drop_first())
    } else {
        bytes
    }
}

/// `bytes` without the zero bytes at its back.
pub open spec fn trim_back(bytes: Seq<u8>) -> Seq<u8>
    decreases bytes.len(),
{
    if bytes.len() > 0 && bytes.last() == 0 {
        trim_back(bytes.drop_last())
    } else {
        bytes
    }
}

/// The name in a name field: the field without its padding of zero bytes.
pub open spec fn network_name(field: Seq<u8>) -> Seq<u8> {
    trim_back(trim_front(field))
}

/// The index of the first known network, from position `from` on, that is
/// called `name`.
pub open spec fn first_known_from(known: Seq<Vec<u8>>, name: Seq<u8>, from: nat) -> Option<nat>
    decreases known.len() - from,
{
    if from >= known.len() {
        None
    } else if known[from as int]@ == name {
        Some(from)
    } else {
        first_known_from(known, name, from + 1)
    }
}

/// The index of the known network that a scanned name field names: the
/// first one with that name, if there is one.
pub open spec fn known_index(known: Seq<Vec<u8>>, field: Seq<u8>) -> Option<nat> {
    first_known_from(known, network_name(field), 0)
}

/// Seconds to wait after attempt number `attempt` was refused: two after the
/// first, and twice as long after each further one.
pub open spec fn backoff(attempt: nat) -> nat
    decreases attempt,
{
    if attempt <= 1 {
        2
    } else {
        2 * backoff((attempt - 1) as nat)
    }
}

impl ConnectStage {
    /// Whether the stage can come up in a run that started with the scan:
    /// its attempt number lies between one and [`MAX_RETRIES`].
    pub open spec fn in_bounds(self) -> bool {
        match self {
            ConnectStage::Joining { network, attempt } => 1 <= attempt <= MAX_RETRIES,
            ConnectStage::BackingOff { network, attempt } => 1 <= attempt <= MAX_RETRIES,
            _ => true,
        }
    }

    /// What the caller has to do at this stage. A stage whose attempt number
    /// is out of bounds counts as a join that has failed.
    pub open spec fn pending(self) -> ConnectAction {
        match self {
            ConnectStage::Scanning => ConnectAction::NextScanResult,
            ConnectStage::Joining { network, attempt } => if self.in_bounds() {
                ConnectAction::Join { network }
            } else {
                ConnectAction::Fail(NetConnectError { failure: ConnectFailure::JoinFailed })
            },
            ConnectStage::BackingOff { network, attempt } => if self.in_bounds() {
                ConnectAction::Wait { secs: backoff(attempt as nat) as u64 }
            } else {
                ConnectAction::Fail(NetConnectError { failure: ConnectFailure::JoinFailed })
            },
            ConnectStage::Polling => ConnectAction::PollAddress,
            ConnectStage::PollPause => ConnectAction::Wait { secs: ADDRESS_POLL_SECS },
            ConnectStage::Connected => ConnectAction::Succeed,
            ConnectStage::Failed(error) => ConnectAction::Fail(error),
        }
    }

    /// The stage after the caller has reported `event`.
    ///
    /// The scan goes on until it shows a known network, and fails the
    /// connection when it ends before that. A refused join is followed by a
    /// wait and, up to [`MAX_RETRIES`] attempts in all, by another attempt;
    /// after the wait that follows the last one the connection has failed.
    /// An accepted join is followed by looks at the address, one every
    /// [`ADDRESS_POLL_SECS`], for as long as it takes. A report that does
    /// not belong to the stage changes nothing.
    pub open spec fn after(self, event: ConnectEventView, known: Seq<Vec<u8>>) -> ConnectStage {
        match (self, event) {
            (ConnectStage::Scanning, ConnectEventView::Seen(field)) => match known_index(
                known,
                field,
            ) {
                Some(network) => ConnectStage::Joining { network: network as usize, attempt: 1 },
                None => ConnectStage::Scanning,
            },
            (ConnectStage::Scanning, ConnectEventView::ScanEnded) => ConnectStage::Failed(
                NetConnectError { failure: ConnectFailure::NetworkNotFound },
            ),
            (ConnectStage::Joining { network, attempt }, ConnectEventView::Joined) => {
                ConnectStage::Polling
            },
            (ConnectStage::Joining { network, attempt }, ConnectEventView::Refused) => {
                if 1 <= attempt <= MAX_RETRIES {
                    ConnectStage::BackingOff { network, attempt }
                } else {
                    ConnectStage::Failed(NetConnectError { failure: ConnectFailure::JoinFailed })
                }
            },
            (ConnectStage::BackingOff { network, attempt }, ConnectEventView::Waited) => {
                if attempt < MAX_RETRIES {
                    ConnectStage::Joining { network, attempt: (attempt + 1) as u8 }
                } else {
                    ConnectStage::Failed(NetConnectError { failure: ConnectFailure::JoinFailed })
                }
            },
            (ConnectStage::Polling, ConnectEventView::AddressUp) => ConnectStage::Connected,
            (ConnectStage::Polling, ConnectEventView::AddressDown) => ConnectStage::PollPause,
            (ConnectStage::PollPause, ConnectEventView::Waited) => ConnectStage::Polling,
            _ => self,
        }
    }
}

proof fn lemma_backoff_bound(attempt: nat)
    requires
        attempt <= 10,
    ensures
        2 <= backoff(attempt) <= 1024,
        backoff(0) == 2,
        backoff(1) == 2,
{
    reveal_with_fuel(backoff, 11);
}

/// Seconds to wait after attempt number `attempt` was refused.
fn backoff_secs(attempt: u8) -> (secs: u64)
    requires
        attempt <= MAX_RETRIES,
    ensures
        secs == backoff(attempt as nat),
        2 <= secs <= 1024,
{
    let mut secs: u64 = 2;
    let mut counted: u8 = 1;
    proof {
        lemma_backoff_bound(1);
    }
    if attempt == 0 {
        return secs;
    }
    while counted < attempt
        invariant
            1 <= counted <= attempt,
            attempt <= MAX_RETRIES,
            secs == backoff(counted as nat),
            2 <= secs <= 1024,
        decreases attempt - counted,
    {
        proof {
            lemma_backoff_bound((counted + 1) as nat);
        }
        secs = secs * 2;
        counted = counted + 1;
    }
    secs
}

proof fn lemma_trim_front_skips(field: Seq<u8>, start: int)
    requires
        0 <= start <= field.len(),
        forall|k: int| 0 <= k < start ==> field[k] == 0,
    ensures
        trim_front(field) == trim_front(field.subrange(start, field.len() as int)),
    decreases start,
{
    if start > 0 {
        assert(field.drop_first().subrange(start - 1, field.len() - 1) =~= field.subrange(
            start,
            field.len() as int,
        ));
        lemma_trim_front_skips(field.drop_first(), start - 1);
    } else {
        assert(field.subrange(0, field.len() as int) =~= field);
    }
}

proof fn lemma_trim_back_skips(field: Seq<u8>, end: int)
    requires
        0 <= end <= field.len(),
        forall|k: int| end <= k < field.len() ==> field[k] == 0,
    ensures
        trim_back(field) == trim_back(field.subrange(0, end)),
    decreases field.len() - end,
{
    if end < field.len() {
        assert(field.drop_last().subrange(0, end) =~= field.subrange(0, end));
        lemma_trim_back_skips(field.drop_last(), end);
    } else {
        assert(field.subrange(0, end) =~= field);
    }
}

/// Whether the name in `field` is `name`.
fn names(field: &[u8], name: &[u8]) -> (same: bool)
    ensures
        same == (network_name(field@) == name@),
{
    let mut start: usize = 0;
    while start < field.len() && field[start] == 0
        invariant
            start <= field@.len(),
            forall|k: int| 0 <= k < start ==> field@[k] == 0,
        decreases field@.len() - start,
    {
        start = start + 1;
    }
    let mut end: usize = field.len();
    while end > start && field[end - 1] == 0
        invariant
            start <= end <= field@.len(),
            forall|k: int| end <= k < field@.len() ==> field@[k] == 0,
        decreases end,
    {
        end = end - 1;
    }
    let ghost front = field@.subrange(start as int, field@.len() as int);
    let ghost kept = field@.subrange(start as int, end as int);
    proof {
        lemma_trim_front_skips(field@, start as int);
        assert(trim_front(field@) == front) by {
            if start < field@.len() {
                assert(front[0] == field@[start as int]);
            }
        }
        lemma_trim_back_skips(front, end - start);
        assert(front.subrange(0, end - start) =~= kept);
        assert(trim_back(kept) == kept) by {
            if end > start {
                assert(kept.last() == field@[end - 1]);
            }
        }
        assert(network_name(field@) == kept);
    }
    if end - start != name.len() {
        return false;
    }
    let mut at: usize = 0;
    while at < name.len()
        invariant
            at <= name@.len(),
            start <= end <= field@.len(),
            end - start == name@.len(),
            kept == field@.subrange(start as int, end as int),
            network_name(field@) == kept,
            forall|k: int| 0 <= k < at ==> kept[k] == name@[k],
        decreases name@.len() - at,
    {
        if field[start + at] != name[at] {
            assert(kept[at as int] != name@[at as int]);
            return false;
        }
        at = at + 1;
    }
    assert(kept =~= name@);
    true
}

/// Finds the known network that a scanned name field names: the index of
/// the first known network whose name is the field without its padding.
pub fn find_known_network(known: &Vec<Vec<u8>>, field: &[u8]) -> (found: Option<usize>)
    ensures
        match found {
            Some(network) => known_index(known@, field@) == Some(network as nat),
            None => known_index(known@, field@) is None,
        },
{
    let mut at: usize = 0;
    while at < known.len()
        invariant
            at <= known@.len(),
            known_index(known@, field@) == first_known_from(
                known@,
                network_name(field@),
                at as nat,
            ),
        decreases known@.len() - at,
    {
        if names(field, known[at].as_slice()) {
            return Some(at);
        }
        at = at + 1;
    }
    None
}

/// Takes the caller's report and says what to do next.
///
/// `known` holds the names of the known networks, in the order of their
/// credentials.
pub fn on_connect_event(
    stage: &mut ConnectStage,
    event: &ConnectEvent,
    known: &Vec<Vec<u8>>,
) -> (action: ConnectAction)
    ensures
        *final(stage) == old(stage).after(event@, known@),
        action == final(stage).pending(),
        old(stage).in_bounds() ==> final(stage).in_bounds(),
{
    match (*stage, event) {
        (ConnectStage::Scanning, ConnectEvent::Seen(field)) => {
            match find_known_network(known, field.as_slice()) {
                Some(network) => {
                    *stage = ConnectStage::Joining { network, attempt: 1 };
                },
                None => {},
            }
        },
        (ConnectStage::Scanning, ConnectEvent::ScanEnded) => {
            *stage = ConnectStage::Failed(
                NetConnectError { failure: ConnectFailure::NetworkNotFound },
            );
        },
        (ConnectStage::Joining { network, attempt }, ConnectEvent::Joined) => {
            *stage = ConnectStage::Polling;
        },
        (ConnectStage::Joining { network, attempt }, ConnectEvent::Refused) => {
            if 1 <= attempt && attempt <= MAX_RETRIES {
                *stage = ConnectStage::BackingOff { network, attempt };
            } else {
                *stage = ConnectStage::Failed(
                    NetConnectError { failure: ConnectFailure::JoinFailed },
                );
            }
        },
        (ConnectStage::BackingOff { network, attempt }, ConnectEvent::Waited) => {
            if attempt < MAX_RETRIES {
                *stage = ConnectStage::Joining { network, attempt: attempt + 1 };
            } else {
                *stage = ConnectStage::Failed(
                    NetConnectError { failure: ConnectFailure::JoinFailed },
                );
            }
        },
        (ConnectStage::Polling, ConnectEvent::AddressUp) => {
            *stage = ConnectStage::Connected;
        },
        (ConnectStage::Polling, ConnectEvent::AddressDown) => {
            *stage = ConnectStage::PollPause;
        },
        (ConnectStage::PollPause, ConnectEvent::Waited) => {
            *stage = ConnectStage::Polling;
        },
        _ => {},
    }
    pending_action(stage)
}

/// What the caller has to do at `stage`. At the start, with the stage at
/// [`ConnectStage::Scanning`], that is to take the first network out of the
/// scan.
pub fn pending_action(stage: &ConnectStage) -> (action: ConnectAction)
    ensures
        action == stage.pending(),
{
    match *stage {
        ConnectStage::Scanning => ConnectAction::NextScanResult,
        ConnectStage::Joining { network, attempt } => {
            if 1 <= attempt && attempt <= MAX_RETRIES {
                ConnectAction::Join { network }
            } else {
                ConnectAction::Fail(NetConnectError { failure: ConnectFailure::JoinFailed })
            }
        },
        ConnectStage::BackingOff { network, attempt } => {
            if 1 <= attempt && attempt <= MAX_RETRIES {
                ConnectAction::Wait { secs: backoff_secs(attempt) }
            } else {
                ConnectAction::Fail(NetConnectError { failure: ConnectFailure::JoinFailed })
            }
        },
        ConnectStage::Polling => ConnectAction::PollAddress,
        ConnectStage::PollPause => ConnectAction::Wait { secs: ADDRESS_POLL_SECS },
        ConnectStage::Connected => ConnectAction::Succeed,
        ConnectStage::Failed(error) => ConnectAction::Fail(error),
    }
}

/// The face to show while the device is getting onto the network: the
/// connecting face while there is hope, the failure face once there is none,
/// and no face of this module's choosing once the device is connected.
pub fn connection_face(stage: &ConnectStage) -> (face: Option<Faces>)
    ensures
        face == (match *stage {
            ConnectStage::Connected => None,
            ConnectStage::Failed(_) => Some(Faces::ConnectionFailed),
            _ => Some(Faces::Connecting),
        }),
{
    match stage {
        ConnectStage::Connected => None,
        ConnectStage::Failed(_) => Some(Faces::ConnectionFailed),
        _ => Some(Faces::Connecting),
    }
}

/// A refused join is followed by a wait of two seconds after the first
/// attempt and of twice the wait before after each further one. After the
/// wait comes the next attempt at the same network, until the wait after
/// attempt number [`MAX_RETRIES`] is over: then joining has failed.
pub proof fn lemma_refused_join_backs_off(network: usize, attempt: u8, known: Seq<Vec<u8>>)
    requires
        1 <= attempt <= MAX_RETRIES,
    ensures
        ({
            let joining = ConnectStage::Joining { network, attempt };
            let waiting = joining.after(ConnectEventView::Refused, known);
            let next = waiting.after(ConnectEventView::Waited, known);
            &&& waiting == ConnectStage::BackingOff { network, attempt }
            &&& waiting.pending() == ConnectAction::Wait { secs: backoff(attempt as nat) as u64 }
            &&& backoff(1) == 2
            &&& attempt > 1 ==> backoff(attempt as nat) == 2 * backoff((attempt - 1) as nat)
            &&& backoff(MAX_RETRIES as nat) == 1024
            &&& attempt < MAX_RETRIES ==> next == ConnectStage::Joining {
                network,
                attempt: (attempt + 1) as u8,
            }
            &&& attempt == MAX_RETRIES ==> next == ConnectStage::Failed(
                NetConnectError { failure: ConnectFailure::JoinFailed },
            )
        }),
{
    reveal_with_fuel(backoff, 11);
}

/// Once the join was accepted nothing fails any more: the device looks for
/// its address, waits, looks again, and is connected as soon as the address
/// is there.
pub proof fn lemma_address_wait_never_fails(event: ConnectEventView, known: Seq<Vec<u8>>)
    ensures
        ConnectStage::Polling.after(event, known) is Polling || ConnectStage::Polling.after(
            event,
            known,
        ) is PollPause || ConnectStage::Polling.after(event, known) is Connected,
        ConnectStage::PollPause.after(event, known) is Polling || ConnectStage::PollPause.after(
            event,
            known,
        ) is PollPause,
        ConnectStage::Polling.after(event, known) is Connected <==> event is AddressUp,
        ConnectStage::Connected.after(event, known) is Connected,
{
}

} // verus!
