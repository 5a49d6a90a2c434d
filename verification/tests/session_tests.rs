use rusty_boy::cpu::Cpu;
use rusty_boy::debugger::language::{DebuggerAction, ShowableThing};
use rusty_boy::debugger::session::{CpuRequest, DebugSession, Key, KeyEffect};

fn typed(s: &mut DebugSession, text: &str) {
    for b in text.bytes() {
        assert_eq!(s.handle_key(Key::Char(b)), KeyEffect::Nothing);
    }
}

#[test]
fn new_session_lists_rom() {
    let mut cpu = Cpu::new();
    for i in 0..0x8000 {
        cpu.mem[i] = 0;
    }
    cpu.mem[0x100] = 0xC3;
    cpu.mem[0x101] = 0x50;
    cpu.mem[0x102] = 0x01;
    let s = DebugSession::new(&cpu);
    assert!(!s.should_run());
    assert_eq!(s.listing[0], ("0x0000\tNOP".to_string(), 0));
    assert_eq!(s.listing[0x100], ("0x0100\tJP $0150".to_string(), 0x100));
    assert_eq!(s.listing[0x101], ("0x0103\tNOP".to_string(), 0x103));
    assert_eq!(s.output(), &vec![String::new(), String::new()]);
    assert_eq!(s.input(), "");
}

#[test]
fn line_editing_and_history() {
    let cpu = Cpu::new();
    let mut s = DebugSession::new(&cpu);
    typed(&mut s, "stepx");
    assert_eq!(s.handle_key(Key::Backspace), KeyEffect::Nothing);
    assert_eq!(s.input(), "step");
    assert_eq!(s.handle_key(Key::Enter), KeyEffect::Submit("step".to_string()));
    s.record("Stepping...".to_string());
    assert_eq!(s.input(), "");
    typed(&mut s, "run");
    s.handle_key(Key::Enter);
    s.record("Running...".to_string());
    assert_eq!(
        s.output(),
        &vec![
            String::new(),
            String::new(),
            "step".to_string(),
            "Stepping...".to_string(),
            "run".to_string(),
            "Running...".to_string()
        ]
    );
    // back through the history, and forward again
    s.handle_key(Key::Up);
    assert_eq!(s.input(), "run");
    s.handle_key(Key::Up);
    assert_eq!(s.input(), "step");
    // the place in the history is one past the line shown, so the first
    // step forward shows the same line
    s.handle_key(Key::Down);
    assert_eq!(s.input(), "step");
    s.handle_key(Key::Down);
    assert_eq!(s.input(), "run");
    s.handle_key(Key::DeleteLine);
    assert_eq!(s.input(), "");
    // an empty line runs the latest command again
    assert_eq!(s.handle_key(Key::Enter), KeyEffect::Submit("run".to_string()));
}

#[test]
fn keys_for_the_cpu() {
    let cpu = Cpu::new();
    let mut s = DebugSession::new(&cpu);
    assert_eq!(s.handle_key(Key::Left), KeyEffect::StepCpu);
    s.dispatch_debugger_action(&cpu, DebuggerAction::Run);
    assert!(s.should_run());
    assert_eq!(s.handle_key(Key::End), KeyEffect::HaltCpu);
    assert!(!s.should_run());
    assert_eq!(s.handle_key(Key::Other), KeyEffect::Nothing);
}

#[test]
fn command_replies() {
    let mut cpu = Cpu::new();
    cpu.mem[0xC000] = 0xAB;
    let mut s = DebugSession::new(&cpu);
    assert_eq!(
        s.dispatch_debugger_action(&cpu, DebuggerAction::Echo { str: "42".to_string() }),
        ("42".to_string(), CpuRequest::Nothing)
    );
    assert_eq!(
        s.dispatch_debugger_action(&cpu, DebuggerAction::Reset),
        ("CPU resetting".to_string(), CpuRequest::Reset)
    );
    assert_eq!(
        s.dispatch_debugger_action(&cpu, DebuggerAction::Step),
        ("Stepping...".to_string(), CpuRequest::Step)
    );
    assert_eq!(
        s.dispatch_debugger_action(&cpu, DebuggerAction::WatchPoint { addr: 0xFF40 }),
        ("Watchpoint set at 0xFF40".to_string(), CpuRequest::Nothing)
    );
    assert_eq!(s.watchpoints(), &vec![0xFF40]);
    assert_eq!(
        s.dispatch_debugger_action(&cpu, DebuggerAction::UnwatchPoint { addr: 0xFF40 }),
        ("Removing watchpoint at 0xFF40".to_string(), CpuRequest::Nothing)
    );
    assert_eq!(s.watchpoints(), &Vec::<u16>::new());
    assert_eq!(
        s.dispatch_debugger_action(&cpu, DebuggerAction::RunToAddress { addr: 0x150 }),
        ("Going to 0x150".to_string(), CpuRequest::Nothing)
    );
    assert_eq!(s.run_to_point(), Some(0x150));
    assert_eq!(
        s.dispatch_debugger_action(
            &cpu,
            DebuggerAction::Show { show: ShowableThing::Address { addr: 0xC000 } }
        ),
        ("(0xC000) = 0xAB".to_string(), CpuRequest::Nothing)
    );
}

#[test]
fn breakpoints() {
    let mut cpu = Cpu::new();
    for i in 0..0x8000 {
        cpu.mem[i] = 0;
    }
    // a three byte instruction at 0x10: 0x11 and 0x12 are inside it
    cpu.mem[0x10] = 0xC3;
    let mut s = DebugSession::new(&cpu);
    assert_eq!(
        s.dispatch_debugger_action(&cpu, DebuggerAction::SetBreakPoint { addr: 0x20 }),
        ("Setting breakpoint at 0x20 (30)".to_string(), CpuRequest::Nothing)
    );
    assert_eq!(
        s.dispatch_debugger_action(&cpu, DebuggerAction::SetBreakPoint { addr: 5 }),
        ("Setting breakpoint at 0x5 (5)".to_string(), CpuRequest::Nothing)
    );
    assert_eq!(
        s.dispatch_debugger_action(&cpu, DebuggerAction::SetBreakPoint { addr: 0x11 }),
        ("Cannot break at invalid address 0x11".to_string(), CpuRequest::Nothing)
    );
    assert_eq!(s.breakpoints(), &vec![5, 0x20]);
    assert_eq!(
        s.dispatch_debugger_action(&cpu, DebuggerAction::Show { show: ShowableThing::Breakpoints }),
        ("Breakpoints: {5, 32}".to_string(), CpuRequest::Nothing)
    );
    assert_eq!(
        s.dispatch_debugger_action(&cpu, DebuggerAction::UnsetBreakPoint { addr: 5 }),
        ("Removing breakpoint at 0x5".to_string(), CpuRequest::Nothing)
    );
    assert_eq!(
        s.dispatch_debugger_action(&cpu, DebuggerAction::Show { show: ShowableThing::Breakpoints }),
        ("Breakpoints: {32}".to_string(), CpuRequest::Nothing)
    );
}
