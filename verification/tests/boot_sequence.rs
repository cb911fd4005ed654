use nano_core::boot::{
    can_fail, failure_message, next_step, stack_arguments, takes_boot_info, BootAction,
    task_arguments, BootMachine, BootStep, KernelThread, StackEnd, StackKind, StepOutcome,
    TaskArgument, ThreadArgument,
    UserTask, OPTION_UNWRAP_FAILED, RESULT_UNWRAP_FAILED,
};

fn run_to_idle(no_serial: bool) -> Vec<BootStep> {
    let mut machine = BootMachine::new(no_serial);
    let mut steps = Vec::new();
    let mut action = machine.action();
    loop {
        match action {
            BootAction::Perform(BootStep::Idle) => {
                steps.push(BootStep::Idle);
                break;
            }
            BootAction::Perform(step) => {
                steps.push(step);
                action = machine.advance(StepOutcome::Done);
            }
            BootAction::Halt(step) => panic!("halted on {:?}", step),
        }
    }
    steps
}

#[test]
fn boot_sequence_with_serial_port() {
    let steps = run_to_idle(false);
    assert_eq!(steps.len(), 36);
    assert_eq!(steps[0], BootStep::DisableInterrupts);
    assert_eq!(steps[1], BootStep::InitLogger);
    assert_eq!(steps[3], BootStep::LoadBootInfo);
    assert_eq!(steps[4], BootStep::InitMemory);
    assert_eq!(steps[5], BootStep::InitStateStore);
    assert_eq!(steps[6], BootStep::FindNanoCoreModule);
    assert_eq!(steps[7], BootStep::LoadNanoCoreCrate);
    assert!(!steps.contains(&BootStep::EnableVgaMirror));
    assert_eq!(steps[9], BootStep::AllocStack(StackKind::DoubleFault));
    assert_eq!(steps[12], BootStep::InitInterrupts);
    assert_eq!(steps[14], BootStep::InitSyscall);
    assert_eq!(steps[15], BootStep::ReadBspApicId);
    assert_eq!(steps[16], BootStep::InitTask);
    assert_eq!(steps[19], BootStep::BootApCores);
    assert_eq!(steps[20], BootStep::UnmapIdentityRegion);
    assert_eq!(steps[21], BootStep::EnableInterrupts);
    assert_eq!(steps[22], BootStep::SpawnKernelThread(KernelThread::First));
    assert_eq!(steps[28], BootStep::SpawnKernelThread(KernelThread::TestLoop3));
    assert_eq!(steps[29], BootStep::SpawnUserTask(UserTask::TestProgram1));
    assert_eq!(steps[32], BootStep::SpawnUserTask(UserTask::SyscallReceive));
    assert_eq!(steps[33], BootStep::EnableInterruptsForIdle);
    assert_eq!(steps[34], BootStep::CheckInterruptsEnabled);
    assert_eq!(steps[35], BootStep::Idle);
}

#[test]
fn boot_sequence_without_serial_port_mirrors_to_vga() {
    let steps = run_to_idle(true);
    assert_eq!(steps.len(), 37);
    assert_eq!(steps[5], BootStep::InitStateStore);
    assert_eq!(steps[6], BootStep::EnableVgaMirror);
    assert_eq!(steps[7], BootStep::FindNanoCoreModule);
    assert_eq!(steps[36], BootStep::Idle);
}

#[test]
fn every_step_runs_once_in_order() {
    let steps = run_to_idle(true);
    for (i, a) in steps.iter().enumerate() {
        for b in steps.iter().skip(i + 1) {
            assert_ne!(a, b);
        }
    }
    let ap = steps.iter().position(|s| *s == BootStep::BootApCores).unwrap();
    let unmap = steps.iter().position(|s| *s == BootStep::UnmapIdentityRegion).unwrap();
    let enable = steps.iter().position(|s| *s == BootStep::EnableInterrupts).unwrap();
    assert!(ap < unmap && unmap < enable);
    let memory = steps.iter().position(|s| *s == BootStep::InitMemory).unwrap();
    let store = steps.iter().position(|s| *s == BootStep::InitStateStore).unwrap();
    assert!(memory < store);
    let first_user = steps.iter().position(|s| matches!(s, BootStep::SpawnUserTask(_))).unwrap();
    assert!(memory < unmap && unmap < first_user);
}

#[test]
fn only_memory_initialisation_takes_the_boot_information() {
    let steps = run_to_idle(true);
    let takers: Vec<&BootStep> = steps.iter().filter(|s| takes_boot_info(**s)).collect();
    assert_eq!(takers, vec![&BootStep::InitMemory]);
    assert!(!takes_boot_info(BootStep::LoadBootInfo));
}

#[test]
fn stacks_go_to_interrupts_and_syscalls() {
    assert_eq!(
        stack_arguments(BootStep::InitInterrupts),
        vec![(StackKind::DoubleFault, StackEnd::TopUnusable), (StackKind::Privilege, StackEnd::TopUnusable)]
    );
    assert_eq!(stack_arguments(BootStep::InitSyscall), vec![(StackKind::Syscall, StackEnd::TopUsable)]);
    assert!(stack_arguments(BootStep::InitTask).is_empty());
    assert!(stack_arguments(BootStep::AllocStack(StackKind::Syscall)).is_empty());
    let steps = run_to_idle(false);
    for (n, step) in steps.iter().enumerate() {
        for (kind, _) in stack_arguments(*step) {
            let alloc = steps.iter().position(|s| *s == BootStep::AllocStack(kind)).unwrap();
            assert!(alloc < n);
        }
    }
}

#[test]
fn kernel_thread_entries_and_arguments() {
    assert_eq!(KernelThread::First.argument(), ThreadArgument::MaybeNumber(Some(6)));
    assert_eq!(KernelThread::Second.argument(), ThreadArgument::Number(6));
    assert_eq!(KernelThread::Third.argument(), ThreadArgument::Text("hello"));
    assert_eq!(KernelThread::Fourth.argument(), ThreadArgument::Number(12345));
    assert_eq!(KernelThread::TestLoop1.argument(), ThreadArgument::MaybeNumber(None));
    assert_eq!(KernelThread::TestLoop3.argument(), ThreadArgument::MaybeNumber(None));
    assert_eq!(KernelThread::First.entry_name(), "first_thread_main");
    assert_eq!(KernelThread::Fourth.entry_name(), "fourth_thread_main");
    assert_eq!(KernelThread::TestLoop2.entry_name(), "test_loop_2");
}

#[test]
fn idle_is_the_last_step() {
    assert_eq!(next_step(BootStep::Idle, false), BootStep::Idle);
    assert_eq!(next_step(BootStep::CheckInterruptsEnabled, true), BootStep::Idle);
    let mut machine = BootMachine::new(false);
    for _ in 0..100 {
        machine.advance(StepOutcome::Done);
    }
    assert_eq!(machine.action(), BootAction::Perform(BootStep::Idle));
}

#[test]
fn failed_step_halts_for_good() {
    let mut machine = BootMachine::new(false);
    assert_eq!(machine.advance(StepOutcome::Done), BootAction::Perform(BootStep::InitLogger));
    assert_eq!(machine.advance(StepOutcome::Failed), BootAction::Halt(BootStep::InitLogger));
    assert_eq!(machine.advance(StepOutcome::Done), BootAction::Halt(BootStep::InitLogger));
    assert_eq!(machine.advance(StepOutcome::Failed), BootAction::Halt(BootStep::InitLogger));
    assert_eq!(machine.action(), BootAction::Halt(BootStep::InitLogger));
    assert_eq!(failure_message(BootStep::InitLogger), Some("WTF: couldn't init logger."));
}

#[test]
fn failure_messages() {
    assert_eq!(failure_message(BootStep::InitMemory), Some("memory::init() failed."));
    assert_eq!(
        failure_message(BootStep::EarlyInitDrivers),
        Some("Failed to get MADT (APIC) table iterator!")
    );
    assert_eq!(
        failure_message(BootStep::AllocStack(StackKind::Privilege)),
        Some("could not allocate privilege stack")
    );
    assert_eq!(
        failure_message(BootStep::InitInterrupts),
        Some("failed to initialize interrupts!")
    );
    assert_eq!(
        failure_message(BootStep::SpawnUserTask(UserTask::TestProgram2)),
        Some("Error: no userspace modules named 'test_program' found!")
    );
    assert_eq!(
        failure_message(BootStep::SpawnUserTask(UserTask::SyscallSend)),
        Some("Error: no module named 'syscall_send' found!")
    );
    assert_eq!(
        failure_message(BootStep::CheckInterruptsEnabled),
        Some("logical error: interrupts were disabled when entering the idle loop in rust_main()")
    );
    assert_eq!(failure_message(BootStep::InitApicHandlers), None);
    assert_eq!(
        failure_message(BootStep::FindNanoCoreModule),
        Some("called `Option::unwrap()` on a `None` value")
    );
    assert_eq!(
        failure_message(BootStep::LoadNanoCoreCrate),
        Some("called `Result::unwrap()` on an `Err` value")
    );
    assert_eq!(failure_message(BootStep::ReadBspApicId), Some(OPTION_UNWRAP_FAILED));
    assert_eq!(failure_message(BootStep::InitTask), Some(RESULT_UNWRAP_FAILED));
    assert!(can_fail(BootStep::InitTask));
    assert!(!can_fail(BootStep::SpawnKernelThread(KernelThread::Fourth)));
    assert!(!can_fail(BootStep::UnmapIdentityRegion));
}

#[test]
fn spawn_names_and_stack_sizes() {
    assert_eq!(KernelThread::First.name(), "first_thread");
    assert_eq!(KernelThread::TestLoop2.name(), "test_loop_2");
    assert_eq!(UserTask::TestProgram1.module_name(), "test_program");
    assert_eq!(UserTask::TestProgram2.task_name(), Some("test_program_2"));
    assert_eq!(UserTask::SyscallReceive.module_name(), "syscall_receive");
    assert_eq!(UserTask::SyscallSend.task_name(), None);
    assert_eq!(StackKind::DoubleFault.pages(), 1);
    assert_eq!(StackKind::Privilege.pages(), 4);
    assert_eq!(StackKind::Syscall.pages(), 4);
}

#[test]
fn initial_task_arguments_come_from_earlier_steps() {
    assert_eq!(
        task_arguments(BootStep::InitTask),
        vec![
            TaskArgument::KernelMemoryInfo,
            TaskArgument::BspApicId,
            TaskArgument::BootStackBottom,
            TaskArgument::BootStackTop,
        ]
    );
    assert!(task_arguments(BootStep::InitSyscall).is_empty());
    let steps = run_to_idle(false);
    let apic = steps.iter().position(|s| *s == BootStep::ReadBspApicId).unwrap();
    let memory = steps.iter().position(|s| *s == BootStep::InitMemory).unwrap();
    let task = steps.iter().position(|s| *s == BootStep::InitTask).unwrap();
    assert!(memory < task && apic < task);
}
