//! The bring-up of the kernel on the bootstrap processor, as a state machine.
//!
//! Each step is outside work (enabling the logger, mapping memory, starting the
//! other cores, spawning the first tasks, ...) that the caller performs; the
//! machine decides which step comes next, and stops the bring-up for good when a
//! step that can fail did fail.

use vstd::prelude::*;

verus! {

/// The kernel threads spawned once the kernel is up, in the order they are spawned.
/// Each runs the entry of the same name: `first_thread_main`, `second_thread_main`,
/// `third_thread_main`, `fourth_thread_main`, `test_loop_1`, `test_loop_2`, `test_loop_3`.
#[derive(Clone, Copy, PartialEq, Eq, Structural, Debug)]
pub enum KernelThread {
    First,
    Second,
    Third,
    Fourth,
    TestLoop1,
    TestLoop2,
    TestLoop3,
}

/// The userspace tasks started from boot modules, in the order they are started.
#[derive(Clone, Copy, PartialEq, Eq, Structural, Debug)]
pub enum UserTask {
    TestProgram1,
    TestProgram2,
    SyscallSend,
    SyscallReceive,
}

/// The stacks allocated for the bootstrap processor's interrupt handling.
#[derive(Clone, Copy, PartialEq, Eq, Structural, Debug)]
pub enum StackKind {
    DoubleFault,
    Privilege,
    Syscall,
}

/// The argument a kernel thread is spawned with.
#[derive(Clone, Copy, PartialEq, Eq, Debug)]
pub enum ThreadArgument {
    /// An optional number (`Option<u64>`).
    MaybeNumber(Option<u64>),
    /// A number (`u64`).
    Number(u64),
    /// A string, handed to the thread as an owned `String`.
    Text(&'static str),
}

/// Which end of an allocated stack a step is given: its top usable address, or
/// the (unusable) address just past it.
#[derive(Clone, Copy, PartialEq, Eq, Structural, Debug)]
pub enum StackEnd {
    TopUsable,
    TopUnusable,
}

/// What the initial task is created from.
#[derive(Clone, Copy, PartialEq, Eq, Structural, Debug)]
pub enum TaskArgument {
    /// The kernel's memory-management information, set up by `InitMemory`.
    KernelMemoryInfo,
    /// The bootstrap processor's APIC id, read by `ReadBspApicId`.
    BspApicId,
    /// The bottom of the bootstrap processor's boot stack.
    BootStackBottom,
    /// The top of the bootstrap processor's boot stack.
    BootStackTop,
}

/// One step of the bring-up.
#[derive(Clone, Copy, PartialEq, Eq, Structural, Debug)]
pub enum BootStep {
    /// Start with interrupts disabled.
    DisableInterrupts,
    /// Bring up the logger, so that everything after it can be traced.
    InitLogger,
    /// Install the basic exception handlers.
    InitEarlyExceptions,
    /// Read the multiboot2 information the boot loader left behind.
    LoadBootInfo,
    /// Set up paging, the kernel heap and the kernel's memory regions; this step
    /// consumes the multiboot2 information.
    InitMemory,
    /// With a heap in place, create the state store.
    InitStateStore,
    /// Mirror the log to the VGA text buffer (only on machines without a serial port).
    EnableVgaMirror,
    /// Find the boot module that holds the nano_core's own ELF object.
    FindNanoCoreModule,
    /// Parse the nano_core's own ELF object to load its symbols.
    LoadNanoCoreCrate,
    /// Bring up ACPI and the APIC far enough to enumerate the cores.
    EarlyInitDrivers,
    /// Allocate one of the interrupt-handling stacks.
    AllocStack(StackKind),
    /// Set up the TSS, the GDT and the IDT of the bootstrap processor, with the
    /// double-fault and privilege stacks.
    InitInterrupts,
    /// Install the APIC interrupt handlers.
    InitApicHandlers,
    /// Set up the system call entry on the syscall stack.
    InitSyscall,
    /// Read the APIC id of the bootstrap processor.
    ReadBspApicId,
    /// Create the initial task, task_zero, on the bootstrap processor's boot stack.
    InitTask,
    /// Set up the kernel console.
    InitConsole,
    /// Bring up the remaining drivers.
    InitDrivers,
    /// Start the application processors.
    BootApCores,
    /// Remove the boot-time identity mapping of the low half.
    UnmapIdentityRegion,
    /// Enable interrupts: from here on the scheduler runs.
    EnableInterrupts,
    /// Spawn one of the first kernel threads.
    SpawnKernelThread(KernelThread),
    /// Start one of the first userspace tasks.
    SpawnUserTask(UserTask),
    /// Enable interrupts again before the idle loop.
    EnableInterruptsForIdle,
    /// Check that interrupts are on before entering the idle loop.
    CheckInterruptsEnabled,
    /// Task 0's idle loop; the bring-up is complete.
    Idle,
}

/// What the caller does next.
#[derive(Clone, Copy, PartialEq, Eq, Structural, Debug)]
pub enum BootAction {
    /// Perform this step and report its outcome.
    Perform(BootStep),
    /// This step failed: the bring-up stops here (the kernel panics with the
    /// step's failure message).
    Halt(BootStep),
}

/// How a step went.
#[derive(Clone, Copy, PartialEq, Eq, Structural, Debug)]
pub enum StepOutcome {
    Done,
    Failed,
}

/// The position of each step in the complete bring-up sequence.
pub open spec fn rank(step: BootStep) -> nat {
    match step {
        BootStep::DisableInterrupts => 0,
        BootStep::InitLogger => 1,
        BootStep::InitEarlyExceptions => 2,
        BootStep::LoadBootInfo => 3,
        BootStep::InitMemory => 4,
        BootStep::InitStateStore => 5,
        BootStep::EnableVgaMirror => 6,
        BootStep::FindNanoCoreModule => 7,
        BootStep::LoadNanoCoreCrate => 8,
        BootStep::EarlyInitDrivers => 9,
        BootStep::AllocStack(k) => 10 + stack_index(k),
        BootStep::InitInterrupts => 13,
        BootStep::InitApicHandlers => 14,
        BootStep::InitSyscall => 15,
        BootStep::ReadBspApicId => 16,
        BootStep::InitTask => 17,
        BootStep::InitConsole => 18,
        BootStep::InitDrivers => 19,
        BootStep::BootApCores => 20,
        BootStep::UnmapIdentityRegion => 21,
        BootStep::EnableInterrupts => 22,
        BootStep::SpawnKernelThread(t) => 23 + thread_index(t),
        BootStep::SpawnUserTask(u) => 30 + user_task_index(u),
        BootStep::EnableInterruptsForIdle => 34,
        BootStep::CheckInterruptsEnabled => 35,
        BootStep::Idle => 36,
    }
}

pub open spec fn stack_index(k: StackKind) -> nat {
    match k {
        StackKind::DoubleFault => 0,
        StackKind::Privilege => 1,
        StackKind::Syscall => 2,
    }
}

pub open spec fn thread_index(t: KernelThread) -> nat {
    match t {
        KernelThread::First => 0,
        KernelThread::Second => 1,
        KernelThread::Third => 2,
        KernelThread::Fourth => 3,
        KernelThread::TestLoop1 => 4,
        KernelThread::TestLoop2 => 5,
        KernelThread::TestLoop3 => 6,
    }
}

pub open spec fn user_task_index(u: UserTask) -> nat {
    match u {
        UserTask::TestProgram1 => 0,
        UserTask::TestProgram2 => 1,
        UserTask::SyscallSend => 2,
        UserTask::SyscallReceive => 3,
    }
}

/// The rank of the last step, `Idle`.
pub open spec fn last_rank() -> nat {
    36
}

/// The step of the complete sequence at rank `r` (`Idle` beyond the end).
pub open spec fn step_at_rank(r: nat) -> BootStep {
    if r == 0 { BootStep::DisableInterrupts }
    else if r == 1 { BootStep::InitLogger }
    else if r == 2 { BootStep::InitEarlyExceptions }
    else if r == 3 { BootStep::LoadBootInfo }
    else if r == 4 { BootStep::InitMemory }
    else if r == 5 { BootStep::InitStateStore }
    else if r == 6 { BootStep::EnableVgaMirror }
    else if r == 7 { BootStep::FindNanoCoreModule }
    else if r == 8 { BootStep::LoadNanoCoreCrate }
    else if r == 9 { BootStep::EarlyInitDrivers }
    else if r == 10 { BootStep::AllocStack(StackKind::DoubleFault) }
    else if r == 11 { BootStep::AllocStack(StackKind::Privilege) }
    else if r == 12 { BootStep::AllocStack(StackKind::Syscall) }
    else if r == 13 { BootStep::InitInterrupts }
    else if r == 14 { BootStep::InitApicHandlers }
    else if r == 15 { BootStep::InitSyscall }
    else if r == 16 { BootStep::ReadBspApicId }
    else if r == 17 { BootStep::InitTask }
    else if r == 18 { BootStep::InitConsole }
    else if r == 19 { BootStep::InitDrivers }
    else if r == 20 { BootStep::BootApCores }
    else if r == 21 { BootStep::UnmapIdentityRegion }
    else if r == 22 { BootStep::EnableInterrupts }
    else if r == 23 { BootStep::SpawnKernelThread(KernelThread::First) }
    else if r == 24 { BootStep::SpawnKernelThread(KernelThread::Second) }
    else if r == 25 { BootStep::SpawnKernelThread(KernelThread::Third) }
    else if r == 26 { BootStep::SpawnKernelThread(KernelThread::Fourth) }
    else if r == 27 { BootStep::SpawnKernelThread(KernelThread::TestLoop1) }
    else if r == 28 { BootStep::SpawnKernelThread(KernelThread::TestLoop2) }
    else if r == 29 { BootStep::SpawnKernelThread(KernelThread::TestLoop3) }
    else if r == 30 { BootStep::SpawnUserTask(UserTask::TestProgram1) }
    else if r == 31 { BootStep::SpawnUserTask(UserTask::TestProgram2) }
    else if r == 32 { BootStep::SpawnUserTask(UserTask::SyscallSend) }
    else if r == 33 { BootStep::SpawnUserTask(UserTask::SyscallReceive) }
    else if r == 34 { BootStep::EnableInterruptsForIdle }
    else if r == 35 { BootStep::CheckInterruptsEnabled }
    else { BootStep::Idle }
}

/// Whether a step is part of the bring-up on this machine: mirroring the log to
/// VGA only happens when the kernel is built for machines without a serial port.
pub open spec fn enabled(step: BootStep, no_serial: bool) -> bool {
    step != BootStep::EnableVgaMirror || no_serial
}

/// The step after `step`: the next one of the sequence that is part of the
/// bring-up on this machine; `Idle` is the last and stays.
pub open spec fn successor(step: BootStep, no_serial: bool) -> BootStep {
    if step == BootStep::Idle {
        BootStep::Idle
    } else if enabled(step_at_rank(rank(step) + 1), no_serial) {
        step_at_rank(rank(step) + 1)
    } else {
        step_at_rank(rank(step) + 2)
    }
}

/// The step performed after `n` steps have succeeded.
pub open spec fn boot_run(no_serial: bool, n: nat) -> BootStep
    decreases n,
{
    if n == 0 {
        BootStep::DisableInterrupts
    } else {
        successor(boot_run(no_serial, (n - 1) as nat), no_serial)
    }
}

/// How many steps the bring-up has on this machine, `Idle` included.
pub open spec fn boot_length(no_serial: bool) -> nat {
    if no_serial { 37 } else { 36 }
}

/// Where a step stands in the bring-up on this machine.
pub open spec fn boot_position(step: BootStep, no_serial: bool) -> nat {
    if !no_serial && rank(step) > 6 {
        (rank(step) - 1) as nat
    } else {
        rank(step)
    }
}

/// What a step that unwraps an absent value panics with.
pub const OPTION_UNWRAP_FAILED: &'static str = "called `Option::unwrap()` on a `None` value";

/// What a step that unwraps an error panics with; the panic message goes on
/// with `": "` and the error's debug form.
pub const RESULT_UNWRAP_FAILED: &'static str = "called `Result::unwrap()` on an `Err` value";

/// The message with which the kernel stops when a step fails; `None` for the
/// steps that cannot fail.
pub open spec fn failure_text(step: BootStep) -> Option<Seq<char>> {
    match step {
        BootStep::InitLogger => Some("WTF: couldn't init logger."@),
        BootStep::LoadBootInfo => Some("could not load the multiboot2 boot information"@),
        BootStep::InitMemory => Some("memory::init() failed."@),
        BootStep::FindNanoCoreModule => Some(OPTION_UNWRAP_FAILED@),
        BootStep::LoadNanoCoreCrate => Some(RESULT_UNWRAP_FAILED@),
        BootStep::EarlyInitDrivers => Some("Failed to get MADT (APIC) table iterator!"@),
        BootStep::AllocStack(StackKind::DoubleFault) => Some("could not allocate double fault stack"@),
        BootStep::AllocStack(StackKind::Privilege) => Some("could not allocate privilege stack"@),
        BootStep::AllocStack(StackKind::Syscall) => Some("could not allocate syscall stack"@),
        BootStep::InitInterrupts => Some("failed to initialize interrupts!"@),
        BootStep::ReadBspApicId => Some(OPTION_UNWRAP_FAILED@),
        BootStep::InitTask => Some(RESULT_UNWRAP_FAILED@),
        BootStep::SpawnUserTask(UserTask::TestProgram1) => Some("Error: no userspace modules named 'test_program' found!"@),
        BootStep::SpawnUserTask(UserTask::TestProgram2) => Some("Error: no userspace modules named 'test_program' found!"@),
        BootStep::SpawnUserTask(UserTask::SyscallSend) => Some("Error: no module named 'syscall_send' found!"@),
        BootStep::SpawnUserTask(UserTask::SyscallReceive) => Some("Error: no module named 'syscall_receive' found!"@),
        BootStep::CheckInterruptsEnabled => Some("logical error: interrupts were disabled when entering the idle loop in rust_main()"@),
        _ => None,
    }
}

/// Whether a step can fail.
pub open spec fn fallible(step: BootStep) -> bool {
    failure_text(step) is Some
}

/// Steps and ranks correspond one to one.
proof fn lemma_rank_bijection(step: BootStep, r: nat)
    ensures
        step_at_rank(rank(step)) == step,
        rank(step) <= last_rank(),
        r <= last_rank() ==> rank(step_at_rank(r)) == r,
{
}

/// One step forward keeps the bring-up on this machine's steps and moves it one
/// position further.
proof fn lemma_successor_moves_one_position(step: BootStep, no_serial: bool)
    requires
        step != BootStep::Idle,
        enabled(step, no_serial),
    ensures
        enabled(successor(step, no_serial), no_serial),
        boot_position(successor(step, no_serial), no_serial) == boot_position(step, no_serial) + 1,
        rank(successor(step, no_serial)) > rank(step),
{
    let r = rank(step);
    lemma_rank_bijection(step, r + 1);
    lemma_rank_bijection(step, r + 2);
    lemma_rank_bijection(step_at_rank(r + 1), r);
    lemma_rank_bijection(step_at_rank(r + 2), r);
    lemma_rank_bijection(BootStep::EnableVgaMirror, r);
}

/// The bring-up runs through this machine's steps in sequence: after `n`
/// successful steps it performs the step at position `n`, and the last step it
/// reaches is the idle loop.
pub proof fn lemma_boot_sequence(no_serial: bool, n: nat)
    requires
        n < boot_length(no_serial),
    ensures
        enabled(boot_run(no_serial, n), no_serial),
        boot_position(boot_run(no_serial, n), no_serial) == n,
        boot_run(no_serial, (boot_length(no_serial) - 1) as nat) == BootStep::Idle,
{
    lemma_run_position(no_serial, n);
    lemma_run_position(no_serial, (boot_length(no_serial) - 1) as nat);
}

proof fn lemma_run_position(no_serial: bool, n: nat)
    requires
        n < boot_length(no_serial),
    ensures
        n == boot_length(no_serial) - 1 ==> boot_run(no_serial, n) == BootStep::Idle,
        enabled(boot_run(no_serial, n), no_serial),
        boot_position(boot_run(no_serial, n), no_serial) == n,
    decreases n,
{
    if n > 0 {
        lemma_run_position(no_serial, (n - 1) as nat);
        let s = boot_run(no_serial, (n - 1) as nat);
        lemma_rank_bijection(s, 0);
        lemma_successor_moves_one_position(s, no_serial);
    }
    let t = boot_run(no_serial, n);
    lemma_rank_bijection(t, 0);
}

/// Positions tell this machine's steps apart, and follow their ranks.
proof fn lemma_position_order(a: BootStep, b: BootStep, no_serial: bool)
    requires
        enabled(a, no_serial),
        enabled(b, no_serial),
    ensures
        boot_position(a, no_serial) == boot_position(b, no_serial) ==> a == b,
        boot_position(a, no_serial) < boot_position(b, no_serial) <==> rank(a) < rank(b),
        boot_position(a, no_serial) < boot_length(no_serial),
{
    lemma_rank_bijection(a, 0);
    lemma_rank_bijection(b, 0);
    lemma_rank_bijection(BootStep::EnableVgaMirror, 0);
}

/// Every step of the bring-up on this machine is performed, exactly once, at its position.
pub proof fn lemma_each_step_runs_once(no_serial: bool, step: BootStep, n: nat)
    requires
        enabled(step, no_serial),
        n < boot_length(no_serial),
    ensures
        boot_position(step, no_serial) < boot_length(no_serial),
        boot_run(no_serial, boot_position(step, no_serial)) == step,
        boot_run(no_serial, n) == step ==> n == boot_position(step, no_serial),
{
    lemma_position_order(step, step, no_serial);
    let p = boot_position(step, no_serial);
    lemma_boot_sequence(no_serial, p);
    lemma_position_order(boot_run(no_serial, p), step, no_serial);
    lemma_boot_sequence(no_serial, n);
    lemma_position_order(boot_run(no_serial, n), step, no_serial);
}

/// Steps are performed in the order of the sequence: a step performed earlier
/// has a lower rank than one performed later.
pub proof fn lemma_boot_order(no_serial: bool, n: nat, m: nat)
    requires
        n < m < boot_length(no_serial),
    ensures
        rank(boot_run(no_serial, n)) < rank(boot_run(no_serial, m)),
{
    lemma_boot_sequence(no_serial, n);
    lemma_boot_sequence(no_serial, m);
    lemma_position_order(boot_run(no_serial, n), boot_run(no_serial, m), no_serial);
}

/// The identity mapping is removed only once all the other cores are up (they
/// boot through it), and interrupts are enabled only after it is gone.
pub proof fn lemma_cores_up_before_identity_unmapped(no_serial: bool, n: nat, m: nat, k: nat)
    requires
        n < boot_length(no_serial),
        m < boot_length(no_serial),
        k < boot_length(no_serial),
        boot_run(no_serial, n) == BootStep::BootApCores,
        boot_run(no_serial, m) == BootStep::UnmapIdentityRegion,
        boot_run(no_serial, k) == BootStep::EnableInterrupts,
    ensures
        n < m < k,
{
    lemma_each_step_runs_once(no_serial, BootStep::BootApCores, n);
    lemma_each_step_runs_once(no_serial, BootStep::UnmapIdentityRegion, m);
    lemma_each_step_runs_once(no_serial, BootStep::EnableInterrupts, k);
}

/// The step after `step` on a machine with (`no_serial == false`) or without a serial port.
pub fn next_step(step: BootStep, no_serial: bool) -> (next: BootStep)
    ensures
        next == successor(step, no_serial),
{
    match step {
        BootStep::DisableInterrupts => BootStep::InitLogger,
        BootStep::InitLogger => BootStep::InitEarlyExceptions,
        BootStep::InitEarlyExceptions => BootStep::LoadBootInfo,
        BootStep::LoadBootInfo => BootStep::InitMemory,
        BootStep::InitMemory => BootStep::InitStateStore,
        BootStep::InitStateStore => {
            if no_serial {
                BootStep::EnableVgaMirror
            } else {
                BootStep::FindNanoCoreModule
            }
        },
        BootStep::EnableVgaMirror => BootStep::FindNanoCoreModule,
        BootStep::FindNanoCoreModule => BootStep::LoadNanoCoreCrate,
        BootStep::LoadNanoCoreCrate => BootStep::EarlyInitDrivers,
        BootStep::EarlyInitDrivers => BootStep::AllocStack(StackKind::DoubleFault),
        BootStep::AllocStack(StackKind::DoubleFault) => BootStep::AllocStack(StackKind::Privilege),
        BootStep::AllocStack(StackKind::Privilege) => BootStep::AllocStack(StackKind::Syscall),
        BootStep::AllocStack(StackKind::Syscall) => BootStep::InitInterrupts,
        BootStep::InitInterrupts => BootStep::InitApicHandlers,
        BootStep::InitApicHandlers => BootStep::InitSyscall,
        BootStep::InitSyscall => BootStep::ReadBspApicId,
        BootStep::ReadBspApicId => BootStep::InitTask,
        BootStep::InitTask => BootStep::InitConsole,
        BootStep::InitConsole => BootStep::InitDrivers,
        BootStep::InitDrivers => BootStep::BootApCores,
        BootStep::BootApCores => BootStep::UnmapIdentityRegion,
        BootStep::UnmapIdentityRegion => BootStep::EnableInterrupts,
        BootStep::EnableInterrupts => BootStep::SpawnKernelThread(KernelThread::First),
        BootStep::SpawnKernelThread(t) => match t {
            KernelThread::First => BootStep::SpawnKernelThread(KernelThread::Second),
            KernelThread::Second => BootStep::SpawnKernelThread(KernelThread::Third),
            KernelThread::Third => BootStep::SpawnKernelThread(KernelThread::Fourth),
            KernelThread::Fourth => BootStep::SpawnKernelThread(KernelThread::TestLoop1),
            KernelThread::TestLoop1 => BootStep::SpawnKernelThread(KernelThread::TestLoop2),
            KernelThread::TestLoop2 => BootStep::SpawnKernelThread(KernelThread::TestLoop3),
            KernelThread::TestLoop3 => BootStep::SpawnUserTask(UserTask::TestProgram1),
        },
        BootStep::SpawnUserTask(u) => match u {
            UserTask::TestProgram1 => BootStep::SpawnUserTask(UserTask::TestProgram2),
            UserTask::TestProgram2 => BootStep::SpawnUserTask(UserTask::SyscallSend),
            UserTask::SyscallSend => BootStep::SpawnUserTask(UserTask::SyscallReceive),
            UserTask::SyscallReceive => BootStep::EnableInterruptsForIdle,
        },
        BootStep::EnableInterruptsForIdle => BootStep::CheckInterruptsEnabled,
        BootStep::CheckInterruptsEnabled => BootStep::Idle,
        BootStep::Idle => BootStep::Idle,
    }
}

/// The message with which the kernel stops when `step` fails, or `None` when
/// the step cannot fail.
pub fn failure_message(step: BootStep) -> (message: Option<&'static str>)
    ensures
        message matches Some(m) ==> failure_text(step) == Some(m@),
        message is None <==> failure_text(step) is None,
{
    match step {
        BootStep::InitLogger => Some("WTF: couldn't init logger."),
        BootStep::LoadBootInfo => Some("could not load the multiboot2 boot information"),
        BootStep::InitMemory => Some("memory::init() failed."),
        BootStep::FindNanoCoreModule => Some(OPTION_UNWRAP_FAILED),
        BootStep::LoadNanoCoreCrate => Some(RESULT_UNWRAP_FAILED),
        BootStep::EarlyInitDrivers => Some("Failed to get MADT (APIC) table iterator!"),
        BootStep::AllocStack(StackKind::DoubleFault) => Some("could not allocate double fault stack"),
        BootStep::AllocStack(StackKind::Privilege) => Some("could not allocate privilege stack"),
        BootStep::AllocStack(StackKind::Syscall) => Some("could not allocate syscall stack"),
        BootStep::InitInterrupts => Some("failed to initialize interrupts!"),
        BootStep::ReadBspApicId => Some(OPTION_UNWRAP_FAILED),
        BootStep::InitTask => Some(RESULT_UNWRAP_FAILED),
        BootStep::SpawnUserTask(UserTask::TestProgram1) => Some("Error: no userspace modules named 'test_program' found!"),
        BootStep::SpawnUserTask(UserTask::TestProgram2) => Some("Error: no userspace modules named 'test_program' found!"),
        BootStep::SpawnUserTask(UserTask::SyscallSend) => Some("Error: no module named 'syscall_send' found!"),
        BootStep::SpawnUserTask(UserTask::SyscallReceive) => Some("Error: no module named 'syscall_receive' found!"),
        BootStep::CheckInterruptsEnabled => Some("logical error: interrupts were disabled when entering the idle loop in rust_main()"),
        _ => None,
    }
}

/// Whether `step` can fail.
pub fn can_fail(step: BootStep) -> (answer: bool)
    ensures
        answer == fallible(step),
{
    failure_message(step).is_some()
}

impl StackKind {
    /// The number of pages of the stack.
    pub fn pages(self) -> (pages: usize)
        ensures
            pages == (if self == StackKind::DoubleFault { 1usize } else { 4usize }),
    {
        match self {
            StackKind::DoubleFault => 1,
            _ => 4,
        }
    }
}

impl KernelThread {
    /// The name the thread is spawned under.
    pub fn name(self) -> (name: &'static str)
        ensures
            name@ == kernel_thread_name(self),
    {
        match self {
            KernelThread::First => "first_thread",
            KernelThread::Second => "second_thread",
            KernelThread::Third => "third_thread",
            KernelThread::Fourth => "fourth_thread",
            KernelThread::TestLoop1 => "test_loop_1",
            KernelThread::TestLoop2 => "test_loop_2",
            KernelThread::TestLoop3 => "test_loop_3",
        }
    }
}

pub open spec fn kernel_thread_name(t: KernelThread) -> Seq<char> {
    match t {
        KernelThread::First => "first_thread"@,
        KernelThread::Second => "second_thread"@,
        KernelThread::Third => "third_thread"@,
        KernelThread::Fourth => "fourth_thread"@,
        KernelThread::TestLoop1 => "test_loop_1"@,
        KernelThread::TestLoop2 => "test_loop_2"@,
        KernelThread::TestLoop3 => "test_loop_3"@,
    }
}

impl UserTask {
    /// The boot module the task is loaded from.
    pub fn module_name(self) -> (name: &'static str)
        ensures
            name@ == user_task_module(self),
    {
        match self {
            UserTask::TestProgram1 => "test_program",
            UserTask::TestProgram2 => "test_program",
            UserTask::SyscallSend => "syscall_send",
            UserTask::SyscallReceive => "syscall_receive",
        }
    }

    /// The name the task is given, if any.
    pub fn task_name(self) -> (name: Option<&'static str>)
        ensures
            name matches Some(n) ==> user_task_name(self) == Some(n@),
            name is None <==> user_task_name(self) is None,
    {
        match self {
            UserTask::TestProgram1 => Some("test_program_1"),
            UserTask::TestProgram2 => Some("test_program_2"),
            UserTask::SyscallSend => None,
            UserTask::SyscallReceive => None,
        }
    }
}

pub open spec fn user_task_module(u: UserTask) -> Seq<char> {
    match u {
        UserTask::TestProgram1 => "test_program"@,
        UserTask::TestProgram2 => "test_program"@,
        UserTask::SyscallSend => "syscall_send"@,
        UserTask::SyscallReceive => "syscall_receive"@,
    }
}

pub open spec fn user_task_name(u: UserTask) -> Option<Seq<char>> {
    match u {
        UserTask::TestProgram1 => Some("test_program_1"@),
        UserTask::TestProgram2 => Some("test_program_2"@),
        UserTask::SyscallSend => None,
        UserTask::SyscallReceive => None,
    }
}

/// The state of the bring-up: the machine's configuration, the current step,
/// and whether the bring-up stopped on that step's failure.
#[derive(Clone, Copy, PartialEq, Eq, Structural, Debug)]
pub struct BootState {
    pub no_serial: bool,
    pub step: BootStep,
    pub halted: bool,
}

/// What the caller is told to do in a state.
pub open spec fn action_of(state: BootState) -> BootAction {
    if state.halted {
        BootAction::Halt(state.step)
    } else {
        BootAction::Perform(state.step)
    }
}

/// The state after the current step's outcome is reported: a halted bring-up
/// stays as it is; a failure halts it on the current step; a success moves on
/// to the next step.
pub open spec fn after(state: BootState, outcome: StepOutcome) -> BootState {
    if state.halted {
        state
    } else if outcome == StepOutcome::Failed {
        BootState { halted: true, ..state }
    } else {
        BootState { step: successor(state.step, state.no_serial), ..state }
    }
}

/// The bring-up of the bootstrap processor.
pub struct BootMachine {
    state: BootState,
}

impl View for BootMachine {
    type V = BootState;

    closed spec fn view(&self) -> BootState {
        self.state
    }
}

impl BootMachine {
    /// A bring-up about to perform its first step, on a machine with
    /// (`no_serial == false`) or without a serial port.
    pub fn new(no_serial: bool) -> (machine: BootMachine)
        ensures
            machine@ == (BootState { no_serial, step: BootStep::DisableInterrupts, halted: false }),
    {
        BootMachine { state: BootState { no_serial, step: BootStep::DisableInterrupts, halted: false } }
    }

    /// What to do now.
    pub fn action(&self) -> (action: BootAction)
        ensures
            action == action_of(self@),
    {
        if self.state.halted {
            BootAction::Halt(self.state.step)
        } else {
            BootAction::Perform(self.state.step)
        }
    }

    /// Reports how the current step went and returns what to do next. Only a
    /// step that can fail may be reported as failed.
    pub fn advance(&mut self, outcome: StepOutcome) -> (action: BootAction)
        requires
            outcome == StepOutcome::Failed ==> fallible(old(self)@.step) || old(self)@.halted,
        ensures
            final(self)@ == after(old(self)@, outcome),
            action == action_of(final(self)@),
    {
        if !self.state.halted {
            if outcome == StepOutcome::Failed {
                self.state.halted = true;
            } else {
                self.state.step = next_step(self.state.step, self.state.no_serial);
            }
        }
        self.action()
    }
}

/// The state of a fresh bring-up after `n` steps reported done in a row.
pub open spec fn after_successes(no_serial: bool, n: nat) -> BootState
    decreases n,
{
    if n == 0 {
        BootState { no_serial, step: BootStep::DisableInterrupts, halted: false }
    } else {
        after(after_successes(no_serial, (n - 1) as nat), StepOutcome::Done)
    }
}

/// When every step succeeds, the machine walks the bring-up sequence step by
/// step, never halts, and after `boot_length - 1` steps sits in the idle loop,
/// where further successes keep it.
pub proof fn lemma_successes_reach_idle(no_serial: bool, n: nat)
    ensures
        after_successes(no_serial, n)
            == (BootState { no_serial, step: boot_run(no_serial, n), halted: false }),
        n >= boot_length(no_serial) - 1 ==> after_successes(no_serial, n).step == BootStep::Idle,
    decreases n,
{
    if n > 0 {
        lemma_successes_reach_idle(no_serial, (n - 1) as nat);
    } else {
        lemma_boot_sequence(no_serial, 0);
    }
    if n >= boot_length(no_serial) - 1 && n > 0 {
        if n - 1 >= boot_length(no_serial) - 1 {
        } else {
            assert(n - 1 == boot_length(no_serial) - 2);
            lemma_boot_sequence(no_serial, (boot_length(no_serial) - 2) as nat);
            lemma_rank_bijection(boot_run(no_serial, (n - 1) as nat), 0);
        }
    }
}

/// A failed step halts the bring-up on that step, and a halted bring-up stays
/// halted on the same step whatever is reported afterwards.
pub proof fn lemma_failure_is_final(state: BootState, later: Seq<StepOutcome>)
    requires
        !state.halted,
    ensures
        action_of(after(state, StepOutcome::Failed)) == BootAction::Halt(state.step),
        after_all(after(state, StepOutcome::Failed), later) == after(state, StepOutcome::Failed),
    decreases later.len(),
{
    if later.len() > 0 {
        lemma_failure_is_final(state, later.drop_last());
    }
}

/// The state after reporting `outcomes` one by one.
pub open spec fn after_all(state: BootState, outcomes: Seq<StepOutcome>) -> BootState
    decreases outcomes.len(),
{
    if outcomes.len() == 0 {
        state
    } else {
        after(after_all(state, outcomes.drop_last()), outcomes.last())
    }
}

/// The one step that is handed the multiboot2 information read by `LoadBootInfo`,
/// and consumes it: memory initialisation. No other step is given it.
pub open spec fn consumes_boot_info(step: BootStep) -> bool {
    step == BootStep::InitMemory
}

/// Whether `step` is handed (and consumes) the multiboot2 information.
pub fn takes_boot_info(step: BootStep) -> (answer: bool)
    ensures
        answer == consumes_boot_info(step),
        answer <==> step == BootStep::InitMemory,
{
    match step {
        BootStep::InitMemory => true,
        _ => false,
    }
}

/// The stacks a step is given, in argument order, and which end of each.
pub open spec fn stack_arguments_of(step: BootStep) -> Seq<(StackKind, StackEnd)> {
    match step {
        BootStep::InitInterrupts => seq![
            (StackKind::DoubleFault, StackEnd::TopUnusable),
            (StackKind::Privilege, StackEnd::TopUnusable),
        ],
        BootStep::InitSyscall => seq![(StackKind::Syscall, StackEnd::TopUsable)],
        _ => Seq::empty(),
    }
}

/// The stacks `step` is given, in argument order: interrupt setup takes the
/// double-fault and privilege stacks' unusable tops, the system call entry the
/// syscall stack's usable top; no other step takes a stack.
pub fn stack_arguments(step: BootStep) -> (stacks: Vec<(StackKind, StackEnd)>)
    ensures
        stacks@ == stack_arguments_of(step),
        step != BootStep::InitInterrupts && step != BootStep::InitSyscall ==> stacks@.len() == 0,
{
    let mut stacks: Vec<(StackKind, StackEnd)> = Vec::new();
    match step {
        BootStep::InitInterrupts => {
            stacks.push((StackKind::DoubleFault, StackEnd::TopUnusable));
            stacks.push((StackKind::Privilege, StackEnd::TopUnusable));
        },
        BootStep::InitSyscall => {
            stacks.push((StackKind::Syscall, StackEnd::TopUsable));
        },
        _ => {},
    }
    proof {
        assert(stacks@ =~= stack_arguments_of(step));
    }
    stacks
}

/// The argument each kernel thread is spawned with.
pub open spec fn thread_argument_is(t: KernelThread, arg: ThreadArgument) -> bool {
    match t {
        KernelThread::First => arg == ThreadArgument::MaybeNumber(Some(6)),
        KernelThread::Second => arg == ThreadArgument::Number(6),
        KernelThread::Third => arg matches ThreadArgument::Text(text) && text@ == "hello"@,
        KernelThread::Fourth => arg == ThreadArgument::Number(12345),
        _ => arg == ThreadArgument::MaybeNumber(None),
    }
}

/// The name of the entry function each kernel thread runs.
pub open spec fn thread_entry_name(t: KernelThread) -> Seq<char> {
    match t {
        KernelThread::First => "first_thread_main"@,
        KernelThread::Second => "second_thread_main"@,
        KernelThread::Third => "third_thread_main"@,
        KernelThread::Fourth => "fourth_thread_main"@,
        KernelThread::TestLoop1 => "test_loop_1"@,
        KernelThread::TestLoop2 => "test_loop_2"@,
        KernelThread::TestLoop3 => "test_loop_3"@,
    }
}

impl KernelThread {
    /// The argument the thread is spawned with.
    pub fn argument(self) -> (arg: ThreadArgument)
        ensures
            thread_argument_is(self, arg),
    {
        match self {
            KernelThread::First => ThreadArgument::MaybeNumber(Some(6)),
            KernelThread::Second => ThreadArgument::Number(6),
            KernelThread::Third => ThreadArgument::Text("hello"),
            KernelThread::Fourth => ThreadArgument::Number(12345),
            _ => ThreadArgument::MaybeNumber(None),
        }
    }

    /// The name of the entry function the thread runs.
    pub fn entry_name(self) -> (name: &'static str)
        ensures
            name@ == thread_entry_name(self),
    {
        match self {
            KernelThread::First => "first_thread_main",
            KernelThread::Second => "second_thread_main",
            KernelThread::Third => "third_thread_main",
            KernelThread::Fourth => "fourth_thread_main",
            KernelThread::TestLoop1 => "test_loop_1",
            KernelThread::TestLoop2 => "test_loop_2",
            KernelThread::TestLoop3 => "test_loop_3",
        }
    }
}

/// The multiboot2 information is read once, then consumed by exactly one step,
/// memory initialisation; that happens before the identity mapping that holds
/// it (P4 entry 0) is torn down, which in turn happens before any userspace
/// task starts.
pub proof fn lemma_boot_info_handoff(no_serial: bool, n: nat, m: nat, k: nat, u: nat)
    requires
        n < boot_length(no_serial),
        m < boot_length(no_serial),
        k < boot_length(no_serial),
        u < boot_length(no_serial),
        boot_run(no_serial, n) == BootStep::LoadBootInfo,
        consumes_boot_info(boot_run(no_serial, m)),
        boot_run(no_serial, k) == BootStep::UnmapIdentityRegion,
        boot_run(no_serial, u) is SpawnUserTask,
    ensures
        n < m < k < u,
        m == boot_position(BootStep::InitMemory, no_serial),
{
    lemma_each_step_runs_once(no_serial, BootStep::LoadBootInfo, n);
    lemma_each_step_runs_once(no_serial, BootStep::InitMemory, m);
    lemma_each_step_runs_once(no_serial, BootStep::UnmapIdentityRegion, k);
    lemma_boot_sequence(no_serial, u);
}

/// Every stack a step is given was allocated by an earlier step of the bring-up.
pub proof fn lemma_stacks_allocated_before_use(no_serial: bool, n: nat, i: int)
    requires
        n < boot_length(no_serial),
        0 <= i < stack_arguments_of(boot_run(no_serial, n)).len(),
    ensures
        boot_position(BootStep::AllocStack(stack_arguments_of(boot_run(no_serial, n))[i].0), no_serial) < n,
        boot_run(
            no_serial,
            boot_position(BootStep::AllocStack(stack_arguments_of(boot_run(no_serial, n))[i].0), no_serial),
        ) == BootStep::AllocStack(stack_arguments_of(boot_run(no_serial, n))[i].0),
{
    let step = boot_run(no_serial, n);
    let alloc = BootStep::AllocStack(stack_arguments_of(step)[i].0);
    lemma_boot_sequence(no_serial, n);
    lemma_each_step_runs_once(no_serial, alloc, n);
    lemma_position_order(alloc, step, no_serial);
}

/// What a step is given besides stacks, in argument order: creating the initial
/// task takes the kernel's memory information, the bootstrap processor's APIC
/// id, and the bottom and top of its boot stack; no other step takes any.
pub open spec fn task_arguments_of(step: BootStep) -> Seq<TaskArgument> {
    match step {
        BootStep::InitTask => seq![
            TaskArgument::KernelMemoryInfo,
            TaskArgument::BspApicId,
            TaskArgument::BootStackBottom,
            TaskArgument::BootStackTop,
        ],
        _ => Seq::empty(),
    }
}

/// The step that produces an argument of the initial task, if a step does (the
/// boot stack is set up before the bring-up starts).
pub open spec fn producer_of(arg: TaskArgument) -> Option<BootStep> {
    match arg {
        TaskArgument::KernelMemoryInfo => Some(BootStep::InitMemory),
        TaskArgument::BspApicId => Some(BootStep::ReadBspApicId),
        _ => None,
    }
}

/// The arguments `step` creates the initial task from, in argument order.
pub fn task_arguments(step: BootStep) -> (args: Vec<TaskArgument>)
    ensures
        args@ == task_arguments_of(step),
        step != BootStep::InitTask ==> args@.len() == 0,
{
    let mut args: Vec<TaskArgument> = Vec::new();
    match step {
        BootStep::InitTask => {
            args.push(TaskArgument::KernelMemoryInfo);
            args.push(TaskArgument::BspApicId);
            args.push(TaskArgument::BootStackBottom);
            args.push(TaskArgument::BootStackTop);
        },
        _ => {},
    }
    proof {
        assert(args@ =~= task_arguments_of(step));
    }
    args
}

/// Every argument of the initial task that a step produces (the memory
/// information and the APIC id) is produced by an earlier step of the bring-up.
pub proof fn lemma_task_arguments_ready(no_serial: bool, n: nat, i: int)
    requires
        n < boot_length(no_serial),
        0 <= i < task_arguments_of(boot_run(no_serial, n)).len(),
        producer_of(task_arguments_of(boot_run(no_serial, n))[i]) is Some,
    ensures
        ({
            let producer = producer_of(task_arguments_of(boot_run(no_serial, n))[i])->Some_0;
            &&& boot_position(producer, no_serial) < n
            &&& boot_run(no_serial, boot_position(producer, no_serial)) == producer
        }),
{
    let step = boot_run(no_serial, n);
    let producer = producer_of(task_arguments_of(step)[i])->Some_0;
    lemma_boot_sequence(no_serial, n);
    lemma_each_step_runs_once(no_serial, producer, n);
    lemma_position_order(producer, step, no_serial);
}

/// In the bring-up on this machine, step `a` (when it runs) runs before step `b`.
#[verifier::opaque]
pub open spec fn runs_before(no_serial: bool, a: BootStep, b: BootStep) -> bool {
    forall|n: nat, m: nat|
        n < boot_length(no_serial) && m < boot_length(no_serial) && #[trigger] boot_run(no_serial, n) == a
            && #[trigger] boot_run(no_serial, m) == b ==> n < m
}

proof fn lemma_runs_before_by_rank(no_serial: bool, a: BootStep, b: BootStep)
    requires
        rank(a) < rank(b),
    ensures
        runs_before(no_serial, a, b),
{
    reveal(runs_before);
    assert forall|n: nat, m: nat|
        n < boot_length(no_serial) && m < boot_length(no_serial) && #[trigger] boot_run(no_serial, n) == a
            && #[trigger] boot_run(no_serial, m) == b implies n < m by {
        if m <= n {
            if m < n {
                lemma_boot_order(no_serial, m, n);
            }
        }
    }
}

/// What each step needs is in place before it runs: interrupts are off first and
/// the logger comes right after; memory is set up before the state store and
/// before the nano_core's symbols are loaded (both need the heap); the module is
/// found before it is loaded; the stacks are allocated before interrupt setup,
/// which comes before interrupts are enabled; the APIC id is read before the
/// initial task is created, and that task exists before any thread or userspace
/// task is spawned; kernel threads are spawned in their order, then the
/// userspace tasks in theirs, and the interrupt check comes last before idling.
pub proof fn lemma_boot_dependencies(no_serial: bool)
    ensures
        boot_run(no_serial, 0) == BootStep::DisableInterrupts,
        boot_run(no_serial, 1) == BootStep::InitLogger,
        runs_before(no_serial, BootStep::LoadBootInfo, BootStep::InitMemory),
        runs_before(no_serial, BootStep::InitMemory, BootStep::InitStateStore),
        runs_before(no_serial, BootStep::InitMemory, BootStep::LoadNanoCoreCrate),
        runs_before(no_serial, BootStep::FindNanoCoreModule, BootStep::LoadNanoCoreCrate),
        runs_before(no_serial, BootStep::EarlyInitDrivers, BootStep::BootApCores),
        runs_before(no_serial, BootStep::AllocStack(StackKind::DoubleFault), BootStep::InitInterrupts),
        runs_before(no_serial, BootStep::AllocStack(StackKind::Privilege), BootStep::InitInterrupts),
        runs_before(no_serial, BootStep::AllocStack(StackKind::Syscall), BootStep::InitSyscall),
        runs_before(no_serial, BootStep::InitInterrupts, BootStep::EnableInterrupts),
        runs_before(no_serial, BootStep::ReadBspApicId, BootStep::InitTask),
        runs_before(no_serial, BootStep::InitTask, BootStep::InitConsole),
        runs_before(no_serial, BootStep::BootApCores, BootStep::UnmapIdentityRegion),
        runs_before(no_serial, BootStep::UnmapIdentityRegion, BootStep::EnableInterrupts),
        forall|t: KernelThread| #[trigger] runs_before(no_serial, BootStep::InitTask, BootStep::SpawnKernelThread(t)),
        forall|t: KernelThread| #[trigger] runs_before(no_serial, BootStep::EnableInterrupts, BootStep::SpawnKernelThread(t)),
        forall|u: UserTask| #[trigger] runs_before(no_serial, BootStep::UnmapIdentityRegion, BootStep::SpawnUserTask(u)),
        forall|t: KernelThread, u: UserTask|
            #[trigger] runs_before(no_serial, BootStep::SpawnKernelThread(t), BootStep::SpawnUserTask(u)),
        runs_before(no_serial, BootStep::SpawnKernelThread(KernelThread::First), BootStep::SpawnKernelThread(KernelThread::Second)),
        runs_before(no_serial, BootStep::SpawnKernelThread(KernelThread::Second), BootStep::SpawnKernelThread(KernelThread::Third)),
        runs_before(no_serial, BootStep::SpawnKernelThread(KernelThread::Third), BootStep::SpawnKernelThread(KernelThread::Fourth)),
        runs_before(no_serial, BootStep::SpawnKernelThread(KernelThread::Fourth), BootStep::SpawnKernelThread(KernelThread::TestLoop1)),
        runs_before(no_serial, BootStep::SpawnKernelThread(KernelThread::TestLoop1), BootStep::SpawnKernelThread(KernelThread::TestLoop2)),
        runs_before(no_serial, BootStep::SpawnKernelThread(KernelThread::TestLoop2), BootStep::SpawnKernelThread(KernelThread::TestLoop3)),
        runs_before(no_serial, BootStep::SpawnUserTask(UserTask::TestProgram1), BootStep::SpawnUserTask(UserTask::TestProgram2)),
        runs_before(no_serial, BootStep::SpawnUserTask(UserTask::TestProgram2), BootStep::SpawnUserTask(UserTask::SyscallSend)),
        runs_before(no_serial, BootStep::SpawnUserTask(UserTask::SyscallSend), BootStep::SpawnUserTask(UserTask::SyscallReceive)),
        forall|u: UserTask| #[trigger] runs_before(no_serial, BootStep::SpawnUserTask(u), BootStep::EnableInterruptsForIdle),
        runs_before(no_serial, BootStep::EnableInterruptsForIdle, BootStep::CheckInterruptsEnabled),
        runs_before(no_serial, BootStep::CheckInterruptsEnabled, BootStep::Idle),
{
    reveal_with_fuel(boot_run, 2);
    lemma_runs_before_by_rank(no_serial, BootStep::LoadBootInfo, BootStep::InitMemory);
    lemma_runs_before_by_rank(no_serial, BootStep::InitMemory, BootStep::InitStateStore);
    lemma_runs_before_by_rank(no_serial, BootStep::InitMemory, BootStep::LoadNanoCoreCrate);
    lemma_runs_before_by_rank(no_serial, BootStep::FindNanoCoreModule, BootStep::LoadNanoCoreCrate);
    lemma_runs_before_by_rank(no_serial, BootStep::EarlyInitDrivers, BootStep::BootApCores);
    lemma_runs_before_by_rank(no_serial, BootStep::AllocStack(StackKind::DoubleFault), BootStep::InitInterrupts);
    lemma_runs_before_by_rank(no_serial, BootStep::AllocStack(StackKind::Privilege), BootStep::InitInterrupts);
    lemma_runs_before_by_rank(no_serial, BootStep::AllocStack(StackKind::Syscall), BootStep::InitSyscall);
    lemma_runs_before_by_rank(no_serial, BootStep::InitInterrupts, BootStep::EnableInterrupts);
    lemma_runs_before_by_rank(no_serial, BootStep::ReadBspApicId, BootStep::InitTask);
    lemma_runs_before_by_rank(no_serial, BootStep::InitTask, BootStep::InitConsole);
    lemma_runs_before_by_rank(no_serial, BootStep::BootApCores, BootStep::UnmapIdentityRegion);
    lemma_runs_before_by_rank(no_serial, BootStep::UnmapIdentityRegion, BootStep::EnableInterrupts);
    assert forall|t: KernelThread| #[trigger] runs_before(no_serial, BootStep::InitTask, BootStep::SpawnKernelThread(t)) by {
        lemma_runs_before_by_rank(no_serial, BootStep::InitTask, BootStep::SpawnKernelThread(t));
    }
    assert forall|t: KernelThread| #[trigger] runs_before(no_serial, BootStep::EnableInterrupts, BootStep::SpawnKernelThread(t)) by {
        lemma_runs_before_by_rank(no_serial, BootStep::EnableInterrupts, BootStep::SpawnKernelThread(t));
    }
    assert forall|u: UserTask| #[trigger] runs_before(no_serial, BootStep::UnmapIdentityRegion, BootStep::SpawnUserTask(u)) by {
        lemma_runs_before_by_rank(no_serial, BootStep::UnmapIdentityRegion, BootStep::SpawnUserTask(u));
    }
    assert forall|t: KernelThread, u: UserTask|
        #[trigger] runs_before(no_serial, BootStep::SpawnKernelThread(t), BootStep::SpawnUserTask(u)) by {
        lemma_runs_before_by_rank(no_serial, BootStep::SpawnKernelThread(t), BootStep::SpawnUserTask(u));
    }
    lemma_runs_before_by_rank(no_serial, BootStep::SpawnKernelThread(KernelThread::First), BootStep::SpawnKernelThread(KernelThread::Second));
    lemma_runs_before_by_rank(no_serial, BootStep::SpawnKernelThread(KernelThread::Second), BootStep::SpawnKernelThread(KernelThread::Third));
    lemma_runs_before_by_rank(no_serial, BootStep::SpawnKernelThread(KernelThread::Third), BootStep::SpawnKernelThread(KernelThread::Fourth));
    lemma_runs_before_by_rank(no_serial, BootStep::SpawnKernelThread(KernelThread::Fourth), BootStep::SpawnKernelThread(KernelThread::TestLoop1));
    lemma_runs_before_by_rank(no_serial, BootStep::SpawnKernelThread(KernelThread::TestLoop1), BootStep::SpawnKernelThread(KernelThread::TestLoop2));
    lemma_runs_before_by_rank(no_serial, BootStep::SpawnKernelThread(KernelThread::TestLoop2), BootStep::SpawnKernelThread(KernelThread::TestLoop3));
    lemma_runs_before_by_rank(no_serial, BootStep::SpawnUserTask(UserTask::TestProgram1), BootStep::SpawnUserTask(UserTask::TestProgram2));
    lemma_runs_before_by_rank(no_serial, BootStep::SpawnUserTask(UserTask::TestProgram2), BootStep::SpawnUserTask(UserTask::SyscallSend));
    lemma_runs_before_by_rank(no_serial, BootStep::SpawnUserTask(UserTask::SyscallSend), BootStep::SpawnUserTask(UserTask::SyscallReceive));
    assert forall|u: UserTask| #[trigger] runs_before(no_serial, BootStep::SpawnUserTask(u), BootStep::EnableInterruptsForIdle) by {
        lemma_runs_before_by_rank(no_serial, BootStep::SpawnUserTask(u), BootStep::EnableInterruptsForIdle);
    }
    lemma_runs_before_by_rank(no_serial, BootStep::EnableInterruptsForIdle, BootStep::CheckInterruptsEnabled);
    lemma_runs_before_by_rank(no_serial, BootStep::CheckInterruptsEnabled, BootStep::Idle);
}

/// Each input goes to the steps that need it and to no other: only interrupt
/// setup and the system call entry are given stacks, interrupt setup the
/// double-fault then the privilege stack (each by the address past its top),
/// the system call entry the syscall stack (by its top usable address), so that
/// every stack is handed over exactly once; only the creation of the initial
/// task is given task arguments, four distinct ones; only memory
/// initialisation is given the multiboot2 information.
pub proof fn lemma_step_inputs(step: BootStep, i: int)
    ensures
        stack_arguments_of(step).len() > 0 ==> step == BootStep::InitInterrupts || step == BootStep::InitSyscall,
        stack_arguments_of(BootStep::InitInterrupts).len() == 2,
        stack_arguments_of(BootStep::InitInterrupts)[0] == (StackKind::DoubleFault, StackEnd::TopUnusable),
        stack_arguments_of(BootStep::InitInterrupts)[1] == (StackKind::Privilege, StackEnd::TopUnusable),
        stack_arguments_of(BootStep::InitSyscall).len() == 1,
        stack_arguments_of(BootStep::InitSyscall)[0] == (StackKind::Syscall, StackEnd::TopUsable),
        0 <= i < stack_arguments_of(step).len() ==> ({
            let k = stack_arguments_of(step)[i].0;
            &&& k == StackKind::DoubleFault ==> step == BootStep::InitInterrupts && i == 0
            &&& k == StackKind::Privilege ==> step == BootStep::InitInterrupts && i == 1
            &&& k == StackKind::Syscall ==> step == BootStep::InitSyscall && i == 0
        }),
        task_arguments_of(step).len() > 0 ==> step == BootStep::InitTask,
        task_arguments_of(BootStep::InitTask).len() == 4,
        task_arguments_of(BootStep::InitTask)[0] == TaskArgument::KernelMemoryInfo,
        task_arguments_of(BootStep::InitTask)[1] == TaskArgument::BspApicId,
        task_arguments_of(BootStep::InitTask)[2] == TaskArgument::BootStackBottom,
        task_arguments_of(BootStep::InitTask)[3] == TaskArgument::BootStackTop,
        consumes_boot_info(step) <==> step == BootStep::InitMemory,
{
}

/// Each userspace task is loaded from the boot module named for it: the two test
/// programs from the same module "test_program", each syscall task from a module
/// of its own ("syscall_send", "syscall_receive"); two tasks share a module only
/// when both are test programs. A test program's task name is its module's name
/// followed by "_1" or "_2"; the syscall tasks have no name.
pub proof fn lemma_user_task_modules(u: UserTask, v: UserTask)
    ensures
        user_task_module(UserTask::TestProgram1)
            == seq!['t', 'e', 's', 't', '_', 'p', 'r', 'o', 'g', 'r', 'a', 'm'],
        user_task_module(UserTask::SyscallSend)
            == seq!['s', 'y', 's', 'c', 'a', 'l', 'l', '_', 's', 'e', 'n', 'd'],
        user_task_module(UserTask::SyscallReceive)
            == seq!['s', 'y', 's', 'c', 'a', 'l', 'l', '_', 'r', 'e', 'c', 'e', 'i', 'v', 'e'],
        user_task_module(u) == user_task_module(v) <==> (u == v || (
            (u == UserTask::TestProgram1 || u == UserTask::TestProgram2)
            && (v == UserTask::TestProgram1 || v == UserTask::TestProgram2))),
        user_task_name(UserTask::TestProgram1) == Some(user_task_module(UserTask::TestProgram1) + seq!['_', '1']),
        user_task_name(UserTask::TestProgram2) == Some(user_task_module(UserTask::TestProgram2) + seq!['_', '2']),
        user_task_name(UserTask::SyscallSend) is None,
        user_task_name(UserTask::SyscallReceive) is None,
{
    reveal_strlit("test_program");
    reveal_strlit("syscall_send");
    reveal_strlit("syscall_receive");
    reveal_strlit("test_program_1");
    reveal_strlit("test_program_2");
    let tp = user_task_module(UserTask::TestProgram1);
    let ss = user_task_module(UserTask::SyscallSend);
    let sr = user_task_module(UserTask::SyscallReceive);
    assert(tp =~= seq!['t', 'e', 's', 't', '_', 'p', 'r', 'o', 'g', 'r', 'a', 'm']);
    assert(ss =~= seq!['s', 'y', 's', 'c', 'a', 'l', 'l', '_', 's', 'e', 'n', 'd']);
    assert(sr =~= seq!['s', 'y', 's', 'c', 'a', 'l', 'l', '_', 'r', 'e', 'c', 'e', 'i', 'v', 'e']);
    assert(tp[0] != ss[0]);
    assert(tp.len() != sr.len());
    assert(ss.len() != sr.len());
    assert(user_task_name(UserTask::TestProgram1)->Some_0 =~= tp + seq!['_', '1']);
    assert(user_task_name(UserTask::TestProgram2)->Some_0 =~= tp + seq!['_', '2']);
}

/// Kernel threads have pairwise different names; each of the first four runs
/// the entry named after it with "_main" appended, each test loop the entry of
/// its own name.
pub proof fn lemma_kernel_thread_names(t: KernelThread, r: KernelThread)
    ensures
        kernel_thread_name(t) == kernel_thread_name(r) <==> t == r,
        (t == KernelThread::First || t == KernelThread::Second || t == KernelThread::Third
            || t == KernelThread::Fourth)
            ==> thread_entry_name(t) == kernel_thread_name(t) + seq!['_', 'm', 'a', 'i', 'n'],
        (t == KernelThread::TestLoop1 || t == KernelThread::TestLoop2 || t == KernelThread::TestLoop3)
            ==> thread_entry_name(t) == kernel_thread_name(t),
        kernel_thread_name(KernelThread::First)
            == seq!['f', 'i', 'r', 's', 't', '_', 't', 'h', 'r', 'e', 'a', 'd'],
        kernel_thread_name(KernelThread::TestLoop1)
            == seq!['t', 'e', 's', 't', '_', 'l', 'o', 'o', 'p', '_', '1'],
{
    reveal_strlit("first_thread");
    reveal_strlit("second_thread");
    reveal_strlit("third_thread");
    reveal_strlit("fourth_thread");
    reveal_strlit("test_loop_1");
    reveal_strlit("test_loop_2");
    reveal_strlit("test_loop_3");
    reveal_strlit("first_thread_main");
    reveal_strlit("second_thread_main");
    reveal_strlit("third_thread_main");
    reveal_strlit("fourth_thread_main");
    let n1 = kernel_thread_name(KernelThread::First);
    let n2 = kernel_thread_name(KernelThread::Second);
    let n3 = kernel_thread_name(KernelThread::Third);
    let n4 = kernel_thread_name(KernelThread::Fourth);
    let l1 = kernel_thread_name(KernelThread::TestLoop1);
    let l2 = kernel_thread_name(KernelThread::TestLoop2);
    let l3 = kernel_thread_name(KernelThread::TestLoop3);
    assert(n1 =~= seq!['f', 'i', 'r', 's', 't', '_', 't', 'h', 'r', 'e', 'a', 'd']);
    assert(l1 =~= seq!['t', 'e', 's', 't', '_', 'l', 'o', 'o', 'p', '_', '1']);
    // lengths: 12, 13, 12, 13, 11, 11, 11; first characters f, s, t, f, t, t, t
    assert(n1[0] != n2[0] && n1[0] != n3[0] && n1[1] != n4[1]);
    assert(n2.len() != n1.len() && n2.len() != n3.len() && n2[0] != n4[0]);
    assert(n3.len() != n4.len() && n3.len() != l1.len() && n3.len() != l2.len() && n3.len() != l3.len());
    assert(n1.len() != l1.len() && n1.len() != l2.len() && n1.len() != l3.len());
    assert(n2.len() != l1.len() && n2.len() != l2.len() && n2.len() != l3.len());
    assert(n4.len() != l1.len() && n4.len() != l2.len() && n4.len() != l3.len());
    assert(l1[10] != l2[10] && l1[10] != l3[10] && l2[10] != l3[10]);
    assert(thread_entry_name(KernelThread::First) =~= n1 + seq!['_', 'm', 'a', 'i', 'n']);
    assert(thread_entry_name(KernelThread::Second) =~= n2 + seq!['_', 'm', 'a', 'i', 'n']);
    assert(thread_entry_name(KernelThread::Third) =~= n3 + seq!['_', 'm', 'a', 'i', 'n']);
    assert(thread_entry_name(KernelThread::Fourth) =~= n4 + seq!['_', 'm', 'a', 'i', 'n']);
}

/// A userspace task that cannot start stops the kernel with a message naming,
/// in single quotes, the very module the task is loaded from.
pub proof fn lemma_spawn_failure_names_module(u: UserTask)
    ensures
        failure_text(BootStep::SpawnUserTask(u)) == Some(
            (if u == UserTask::TestProgram1 || u == UserTask::TestProgram2 {
                "Error: no userspace modules named '"@
            } else {
                "Error: no module named '"@
            }) + user_task_module(u) + "' found!"@,
        ),
{
    reveal_strlit("Error: no userspace modules named '");
    reveal_strlit("Error: no module named '");
    reveal_strlit("' found!");
    reveal_strlit("test_program");
    reveal_strlit("syscall_send");
    reveal_strlit("syscall_receive");
    reveal_strlit("Error: no userspace modules named 'test_program' found!");
    reveal_strlit("Error: no module named 'syscall_send' found!");
    reveal_strlit("Error: no module named 'syscall_receive' found!");
    let t = failure_text(BootStep::SpawnUserTask(u))->Some_0;
    let expected = (if u == UserTask::TestProgram1 || u == UserTask::TestProgram2 {
        "Error: no userspace modules named '"@
    } else {
        "Error: no module named '"@
    }) + user_task_module(u) + "' found!"@;
    assert(t =~= expected);
}

/// The steps that can stop the bring-up are exactly those the kernel checks:
/// the logger, the boot information, memory, the nano_core's module and symbols,
/// the drivers' early setup, the three stacks, interrupt setup, the APIC id, the
/// initial task, each userspace module, and the final interrupt check. The
/// unwrapped steps stop with the standard unwrap messages.
pub proof fn lemma_fallible_steps(step: BootStep)
    ensures
        fallible(step) <==> (step == BootStep::InitLogger || step == BootStep::LoadBootInfo
            || step == BootStep::InitMemory || step == BootStep::FindNanoCoreModule
            || step == BootStep::LoadNanoCoreCrate || step == BootStep::EarlyInitDrivers
            || step is AllocStack || step == BootStep::InitInterrupts
            || step == BootStep::ReadBspApicId || step == BootStep::InitTask
            || step is SpawnUserTask || step == BootStep::CheckInterruptsEnabled),
        failure_text(BootStep::FindNanoCoreModule) == failure_text(BootStep::ReadBspApicId),
        failure_text(BootStep::LoadNanoCoreCrate) == failure_text(BootStep::InitTask),
        failure_text(BootStep::FindNanoCoreModule) != failure_text(BootStep::LoadNanoCoreCrate),
{
    reveal_strlit("called `Option::unwrap()` on a `None` value");
    reveal_strlit("called `Result::unwrap()` on an `Err` value");
    assert("called `Option::unwrap()` on a `None` value"@[8] != "called `Result::unwrap()` on an `Err` value"@[8]);
}

} // verus!
