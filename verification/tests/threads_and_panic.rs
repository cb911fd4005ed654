use nano_core::boot::KernelThread;
use nano_core::panic::panic_fmt;
use nano_core::threads::{
    first_thread_main, first_thread_plan, fourth_thread_main, second_thread_main,
    second_thread_message, second_thread_plan, spin_delay, test_loop_marker, third_thread_main,
    BusOp, Connection, TEST_LOOP_SPINS,
};

#[test]
fn first_thread_reports_received_message() {
    let (line, exit) = first_thread_main(Some(String::from("This is a message from 2 to 1.")));
    assert_eq!(line, "This is a message from 2 to 1.");
    assert_eq!(exit, 1);
    let (line, exit) = first_thread_main(None);
    assert_eq!(line, "No message!");
    assert_eq!(exit, 1);
}

#[test]
fn second_thread_reports_and_exits_with_two() {
    let (line, exit) = second_thread_main(None);
    assert_eq!(line, "No message!");
    assert_eq!(exit, 2);
    let (line, _) = second_thread_main(Some(String::from("hi")));
    assert_eq!(line, "hi");
}

#[test]
fn third_and_fourth_threads() {
    assert_eq!(third_thread_main(String::from("hello")), "3");
    assert_eq!(third_thread_main(String::new()), "3");
    assert_eq!(fourth_thread_main(12345), None);
}

#[test]
fn test_loops_spin_then_mark() {
    assert_eq!(spin_delay(0), 0);
    assert_eq!(spin_delay(17), 17);
    assert_eq!(spin_delay(TEST_LOOP_SPINS), 10_000_000);
    assert_eq!(test_loop_marker(KernelThread::TestLoop1), Some('1'));
    assert_eq!(test_loop_marker(KernelThread::TestLoop2), Some('2'));
    assert_eq!(test_loop_marker(KernelThread::TestLoop3), Some('3'));
    assert_eq!(test_loop_marker(KernelThread::First), None);
}

#[test]
fn panic_report_lines() {
    let (header, detail) = panic_fmt("index out of bounds", "kernel/src/memory.rs", 42);
    assert_eq!(header, "\n\nPANIC in kernel/src/memory.rs at line 42:");
    assert_eq!(detail, "    index out of bounds");
}

#[test]
fn panic_report_line_numbers() {
    assert_eq!(panic_fmt("", "f", 0).0, "\n\nPANIC in f at line 0:");
    assert_eq!(panic_fmt("", "f", 9).0, "\n\nPANIC in f at line 9:");
    assert_eq!(panic_fmt("", "f", 10).0, "\n\nPANIC in f at line 10:");
    assert_eq!(panic_fmt("", "f", 1000).0, "\n\nPANIC in f at line 1000:");
    assert_eq!(panic_fmt("", "f", u32::MAX).0, "\n\nPANIC in f at line 4294967295:");
    for line in [1u32, 7, 99, 100, 12345, 65536] {
        assert_eq!(panic_fmt("", "f", line).0, format!("\n\nPANIC in f at line {}:", line));
    }
}

#[test]
fn first_thread_bus_operations() {
    assert_eq!(
        first_thread_plan(),
        vec![
            BusOp::Open(Connection::First),
            BusOp::Print("Create the first connection."),
            BusOp::Receive,
            BusOp::Print("3"),
        ]
    );
}

#[test]
fn second_thread_sends_then_receives_on_the_destination() {
    let ops = second_thread_plan();
    assert_eq!(
        ops,
        vec![
            BusOp::Open(Connection::Second),
            BusOp::Print("Create the second connection."),
            BusOp::Send(Connection::First),
            BusOp::MatchMessages(Connection::Second),
            BusOp::Open(Connection::First),
            BusOp::Print("Get the first connection."),
            BusOp::Receive,
        ]
    );
    assert_eq!(second_thread_message(), "This is a message from 2 to 1.");
    assert_eq!(Connection::First.name(), "bus.connection.first");
    assert_eq!(Connection::Second.name(), "bus.connection.second");
    assert_eq!(Connection::First.open_failure_message(), "Fail to create the first bus connection");
    assert_eq!(Connection::Second.open_failure_message(), "Fail to create the second bus connection");
}
