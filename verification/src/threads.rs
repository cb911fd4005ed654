//! What the first kernel threads compute and the message-bus operations they
//! perform, in order. The caller carries the operations out on the bus, prints,
//! and runs the test loops' endless delay-and-mark cycle.

use vstd::prelude::*;
use crate::boot::{kernel_thread_name, KernelThread};

verus! {

/// How many times a test loop spins between two of its marks.
pub const TEST_LOOP_SPINS: u32 = 10_000_000;

/// What a thread reports about the message it tried to receive: the message's
/// data, or that there was none.
pub open spec fn received_report(received: Option<String>) -> Seq<char> {
    match received {
        Some(data) => data@,
        None => "No message!"@,
    }
}

/// A received message is reported exactly as it came, whatever it holds; when
/// nothing came, the report is the 11 characters "No message!".
pub proof fn lemma_received_reported_unchanged(received: Option<String>)
    ensures
        received matches Some(data) ==> received_report(received) == data@,
        received is None
            ==> received_report(received) == seq!['N', 'o', ' ', 'm', 'e', 's', 's', 'a', 'g', 'e', '!'],
{
    reveal_strlit("No message!");
    if received is None {
        assert(received_report(received) =~= seq!['N', 'o', ' ', 'm', 'e', 's', 's', 'a', 'g', 'e', '!']);
    }
}

/// The mark a test loop prints after each delay; `None` for the other threads.
pub open spec fn test_loop_mark(thread: KernelThread) -> Option<char> {
    match thread {
        KernelThread::TestLoop1 => Some('1'),
        KernelThread::TestLoop2 => Some('2'),
        KernelThread::TestLoop3 => Some('3'),
        _ => None,
    }
}

/// Busy-waits by counting `iterations` down to zero; returns how many times it spun.
pub fn spin_delay(iterations: u32) -> (spins: u32)
    ensures
        spins == iterations,
{
    let mut remaining: u32 = iterations;
    let mut spins: u32 = 0;
    while remaining > 0
        invariant
            spins + remaining == iterations,
        decreases remaining,
    {
        remaining = remaining - 1;
        spins = spins + 1;
    }
    spins
}

/// The mark that `thread` prints after each delay, if it is a test loop.
pub fn test_loop_marker(thread: KernelThread) -> (mark: Option<char>)
    ensures
        mark == test_loop_mark(thread),
{
    match thread {
        KernelThread::TestLoop1 => Some('1'),
        KernelThread::TestLoop2 => Some('2'),
        KernelThread::TestLoop3 => Some('3'),
        _ => None,
    }
}

/// The line printed about a receive on the bus.
fn report_received(received: Option<String>) -> (line: String)
    ensures
        line@ == received_report(received),
{
    match received {
        Some(data) => data,
        None => String::from_str("No message!"),
    }
}

/// The first thread, once it has tried to receive a message on its bus
/// connection: the line it prints about it, and the value it exits with.
pub fn first_thread_main(received: Option<String>) -> (out: (String, u64))
    ensures
        out.0@ == received_report(received),
        received matches Some(data) ==> out.0@ == data@,
        received is None ==> out.0@ == seq!['N', 'o', ' ', 'm', 'e', 's', 's', 'a', 'g', 'e', '!'],
        out.1 == 1,
{
    proof {
        lemma_received_reported_unchanged(received);
    }
    (report_received(received), 1)
}

/// The second thread, once it has sent its message and tried to receive one on
/// the first connection: the line it prints about it, and the value it exits with.
pub fn second_thread_main(received: Option<String>) -> (out: (String, u64))
    ensures
        out.0@ == received_report(received),
        received matches Some(data) ==> out.0@ == data@,
        received is None ==> out.0@ == seq!['N', 'o', ' ', 'm', 'e', 's', 's', 'a', 'g', 'e', '!'],
        out.1 == 2,
{
    proof {
        lemma_received_reported_unchanged(received);
    }
    (report_received(received), 2)
}

/// The third thread: whatever its argument, it exits with "3".
pub fn third_thread_main(arg: String) -> (result: String)
    ensures
        result@ == "3"@,
{
    String::from_str("3")
}

/// The fourth thread: whatever its argument, it exits with nothing.
pub fn fourth_thread_main(arg: u64) -> (result: Option<String>)
    ensures
        result is None,
{
    None
}

/// The message-bus connections the first two threads use.
#[derive(Clone, Copy, PartialEq, Eq, Structural, Debug)]
pub enum Connection {
    First,
    Second,
}

/// One operation of a thread on the message bus.
#[derive(Clone, Copy, PartialEq, Eq, Debug)]
pub enum BusOp {
    /// Get (or create) the connection; the kernel stops with the connection's
    /// failure message if it cannot.
    Open(Connection),
    /// Print a progress line.
    Print(&'static str),
    /// Send the second thread's message to the connection.
    Send(Connection),
    /// Have the bus deliver the pending messages of the connection.
    MatchMessages(Connection),
    /// Receive on the connection opened last, and print the report of it.
    Receive,
}

impl Connection {
    /// The connection's name on the bus.
    pub fn name(self) -> (name: &'static str)
        ensures
            name@ == (match self {
                Connection::First => "bus.connection.first"@,
                Connection::Second => "bus.connection.second"@,
            }),
    {
        match self {
            Connection::First => "bus.connection.first",
            Connection::Second => "bus.connection.second",
        }
    }

    /// The message with which the kernel stops when the connection cannot be had.
    pub fn open_failure_message(self) -> (message: &'static str)
        ensures
            message@ == (match self {
                Connection::First => "Fail to create the first bus connection"@,
                Connection::Second => "Fail to create the second bus connection"@,
            }),
    {
        match self {
            Connection::First => "Fail to create the first bus connection",
            Connection::Second => "Fail to create the second bus connection",
        }
    }
}

/// The data of the message the second thread sends.
pub fn second_thread_message() -> (data: &'static str)
    ensures
        data@ == "This is a message from 2 to 1."@,
{
    "This is a message from 2 to 1."
}

/// The first thread's bus operations.
pub open spec fn first_thread_ops() -> Seq<BusOp> {
    seq![
        BusOp::Open(Connection::First),
        BusOp::Print("Create the first connection."),
        BusOp::Receive,
        BusOp::Print("3"),
    ]
}

/// The second thread's bus operations: it sends its message to the first
/// connection, has its own connection's messages delivered, then receives on the
/// first connection.
pub open spec fn second_thread_ops() -> Seq<BusOp> {
    seq![
        BusOp::Open(Connection::Second),
        BusOp::Print("Create the second connection."),
        BusOp::Send(Connection::First),
        BusOp::MatchMessages(Connection::Second),
        BusOp::Open(Connection::First),
        BusOp::Print("Get the first connection."),
        BusOp::Receive,
    ]
}

/// The connection opened last among the first `i` operations, if any.
pub open spec fn open_connection(ops: Seq<BusOp>, i: int) -> Option<Connection>
    decreases i,
{
    if i <= 0 {
        None
    } else {
        match ops[i - 1] {
            BusOp::Open(c) => Some(c),
            _ => open_connection(ops, i - 1),
        }
    }
}

/// The first thread's bus operations, in order.
pub fn first_thread_plan() -> (ops: Vec<BusOp>)
    ensures
        ops@ == first_thread_ops(),
{
    let mut ops: Vec<BusOp> = Vec::new();
    ops.push(BusOp::Open(Connection::First));
    ops.push(BusOp::Print("Create the first connection."));
    ops.push(BusOp::Receive);
    ops.push(BusOp::Print("3"));
    proof {
        assert(ops@ =~= first_thread_ops());
    }
    ops
}

/// The second thread's bus operations, in order.
pub fn second_thread_plan() -> (ops: Vec<BusOp>)
    ensures
        ops@ == second_thread_ops(),
{
    let mut ops: Vec<BusOp> = Vec::new();
    ops.push(BusOp::Open(Connection::Second));
    ops.push(BusOp::Print("Create the second connection."));
    ops.push(BusOp::Send(Connection::First));
    ops.push(BusOp::MatchMessages(Connection::Second));
    ops.push(BusOp::Open(Connection::First));
    ops.push(BusOp::Print("Get the first connection."));
    ops.push(BusOp::Receive);
    proof {
        assert(ops@ =~= second_thread_ops());
    }
    ops
}

/// Every receive of both threads happens on an open connection: the first
/// thread receives on its own connection; the second thread receives on the
/// connection it sent its message to, after it sent it and after the bus
/// delivered its connection's messages.
pub proof fn lemma_threads_receive_where_sent(i: int)
    ensures
        0 <= i < first_thread_ops().len() && first_thread_ops()[i] == BusOp::Receive
            ==> open_connection(first_thread_ops(), i) == Some(Connection::First),
        0 <= i < second_thread_ops().len() && second_thread_ops()[i] == BusOp::Receive ==> {
            &&& i == 6
            &&& second_thread_ops()[2] == BusOp::Send(Connection::First)
            &&& second_thread_ops()[3] == BusOp::MatchMessages(Connection::Second)
            &&& open_connection(second_thread_ops(), i) == Some(Connection::First)
        },
{
    reveal_with_fuel(open_connection, 3);
    let f = first_thread_ops();
    let s = second_thread_ops();
    assert(f[0] == BusOp::Open(Connection::First));
    assert(f[1] != BusOp::Receive);
    assert(f[3] != BusOp::Receive);
    assert(open_connection(f, 1) == Some(Connection::First));
    assert(open_connection(f, 2) == Some(Connection::First));
    assert(s[4] == BusOp::Open(Connection::First));
    assert(open_connection(s, 5) == Some(Connection::First));
    assert(open_connection(s, 6) == Some(Connection::First));
    assert(s[0] != BusOp::Receive);
    assert(s[1] != BusOp::Receive);
    assert(s[2] != BusOp::Receive);
    assert(s[3] != BusOp::Receive);
    assert(s[4] != BusOp::Receive);
    assert(s[5] != BusOp::Receive);
}

/// Exactly the three test loops print marks, and each prints the digit its
/// name ends with, so the three marks differ.
pub proof fn lemma_test_loop_marks(t: KernelThread)
    ensures
        test_loop_mark(t) is Some <==> (t == KernelThread::TestLoop1 || t == KernelThread::TestLoop2
            || t == KernelThread::TestLoop3),
        test_loop_mark(t) matches Some(c) ==> c == kernel_thread_name(t).last() && '1' <= c <= '3',
{
    reveal_strlit("test_loop_1");
    reveal_strlit("test_loop_2");
    reveal_strlit("test_loop_3");
}

} // verus!
