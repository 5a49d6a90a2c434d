//! The state of the interactive debugger apart from its screen: the line
//! being typed, the history of commands and replies, watchpoints,
//! breakpoints, and the replies to commands. The terminal around it draws
//! this state and feeds it keys.
use vstd::prelude::*;
use vstd::string::StrSliceExecFns;
use vstd::string::StringExecFns;

use super::dbglanguage::{nat_digits, push_digits};
use super::language::{DebuggerAction, ShowableThing};
use crate::cpu::io::utf8_decode;
use crate::cpu::Cpu;
use crate::disasm::{
    binsearch_inst, disasm_rom_to_vec, has_pc, hex_char, hex_digit_text, listing, listing_ok,
    pcs_sorted,
};

verus! {

/// A key that the debugger reacts to
#[derive(Debug, Clone, Copy, PartialEq, Eq, Structural)]
pub enum Key {
    /// Steps the CPU by one instruction
    Left,
    /// A printable character, 0x20 to 0x7F
    Char(u8),
    Backspace,
    /// Clears the line
    DeleteLine,
    /// One command further back in the history
    Up,
    /// One command forward in the history
    Down,
    /// Pauses the debugger and halts the CPU
    End,
    /// Runs the line as a command
    Enter,
    Other,
}

/// What the terminal does after a key
#[derive(Debug, Clone, PartialEq, Eq)]
pub enum KeyEffect {
    Nothing,
    /// Run one CPU instruction
    StepCpu,
    /// Halt the CPU
    HaltCpu,
    /// Parse and run the command, then record its reply
    Submit(String),
}

/// What a command asks of the CPU, after its reply is made
#[derive(Debug, Clone, Copy, PartialEq, Eq, Structural)]
pub enum CpuRequest {
    Nothing,
    Reset,
    Step,
    /// Leave a halt and run
    Resume,
}

/// The debugger's state
pub struct DebugSession {
    /// The listing of the ROM, by address
    pub listing: Vec<(String, u16)>,
    input_buffer: String,
    /// Commands and their replies, oldest first; two empty lines to start
    output_buffer: Vec<String>,
    running: bool,
    /// Kept in increasing order
    watchpoints: Vec<u16>,
    /// Kept in increasing order
    breakpoints: Vec<u16>,
    /// How far back in the history the line was taken from
    history_location: usize,
    run_to_point: Option<u16>,
}

/// The mathematical state of the debugger
pub ghost struct SessionView {
    pub listing: Seq<(String, u16)>,
    pub input: Seq<char>,
    pub output: Seq<Seq<char>>,
    pub running: bool,
    pub watchpoints: Seq<u16>,
    pub breakpoints: Seq<u16>,
    pub history_location: usize,
    pub run_to_point: Option<u16>,
}

impl View for DebugSession {
    type V = SessionView;

    closed spec fn view(&self) -> SessionView {
        SessionView {
            listing: self.listing@,
            input: self.input_buffer@,
            output: Seq::new(self.output_buffer@.len(), |i: int| self.output_buffer@[i]@),
            running: self.running,
            watchpoints: self.watchpoints@,
            breakpoints: self.breakpoints@,
            history_location: self.history_location,
            run_to_point: self.run_to_point,
        }
    }
}

/// Whether a sequence strictly increases
pub open spec fn increasing(s: Seq<u16>) -> bool {
    forall|i: int, j: int| 0 <= i < j < s.len() ==> s[i] < s[j]
}

/// A value in hexadecimal with no leading zeros, as `{:X}` writes it
pub open spec fn hex_min(v: nat) -> Seq<char>
    decreases v,
{
    if v < 16 {
        seq![hex_char(v)]
    } else {
        hex_min(v / 16).push(hex_char(v % 16))
    }
}

/// A set of addresses as `{:?}` writes an ordered set: in braces, in
/// decimal, separated by a comma and a space
pub open spec fn set_text(s: Seq<u16>) -> Seq<char> {
    "{"@ + set_items(s) + "}"@
}

/// The items of a set's text
pub open spec fn set_items(s: Seq<u16>) -> Seq<char>
    decreases s.len(),
{
    if s.len() == 0 {
        seq![]
    } else if s.len() == 1 {
        nat_digits(s[0] as nat)
    } else {
        set_items(s.drop_last()) + ", "@ + nat_digits(s.last() as nat)
    }
}

impl SessionView {
    /// The session is consistent: pairs of lines in the history, two at
    /// least, and the sets in increasing order
    pub open spec fn wf(self) -> bool {
        &&& self.output.len() >= 2
        &&& self.output.len() % 2 == 0
        &&& self.output.len() + 2 <= usize::MAX
        &&& self.history_location * 2 <= self.output.len() + 1
        &&& increasing(self.watchpoints)
        &&& increasing(self.breakpoints)
    }

    /// Line `val` of the history counted back from the latest command
    pub open spec fn history_item(self, val: int) -> Option<Seq<char>> {
        if val * 2 > self.output.len() - 1 {
            None
        } else {
            Some(self.output[self.output.len() - 2 - val * 2])
        }
    }

    /// The line of the session with `item` in place of the line being typed
    pub open spec fn with_input(self, item: Seq<char>) -> SessionView {
        SessionView { input: item, ..self }
    }

    /// What a key does to the session
    pub open spec fn key_pressed(self, key: Key) -> SessionView {
        match key {
            Key::Char(v) => self.with_input(self.input.push(v as char)),
            Key::Backspace => if self.input.len() > 0 {
                self.with_input(self.input.drop_last())
            } else {
                self
            },
            Key::DeleteLine => self.with_input(seq![]),
            Key::Up => match self.history_item(self.history_location as int) {
                Some(item) => SessionView {
                    input: item,
                    history_location: (self.history_location + 1) as usize,
                    ..self
                },
                None => self,
            },
            Key::Down => {
                let next = if self.history_location == 0 {
                    0
                } else {
                    self.history_location - 1
                };
                match self.history_item(next) {
                    Some(item) => SessionView { input: item, history_location: next as usize, ..self },
                    None => self,
                }
            },
            Key::End => SessionView { running: false, ..self },
            Key::Enter => if self.input.len() == 0 {
                match self.history_item(0) {
                    Some(item) => self.with_input(item),
                    None => self,
                }
            } else {
                self
            },
            _ => self,
        }
    }

    /// The session after a command and its reply were recorded: both go to
    /// the history, the line is cleared and the history starts again at
    /// the latest command
    pub open spec fn recorded(self, reply: Seq<char>) -> SessionView {
        SessionView {
            output: self.output.push(self.input).push(reply),
            input: seq![],
            history_location: 0,
            ..self
        }
    }
}

/// The effect of a key, from the session after it
pub open spec fn key_effect(key: Key, after: SessionView, effect: KeyEffect) -> bool {
    match key {
        Key::Left => effect == KeyEffect::StepCpu,
        Key::End => effect == KeyEffect::HaltCpu,
        Key::Enter => effect matches KeyEffect::Submit(t) && t@ == after.input,
        _ => effect == KeyEffect::Nothing,
    }
}

/// The listing of the ROM as the debugger takes it from memory: the first
/// 0x7FFF bytes, and a zero
pub open spec fn rom_image(mem: Seq<u8>) -> Seq<u8> {
    Seq::new(0x8000, |i: int| if i < 0x7FFF { mem[i] } else { 0u8 })
}

/// The listing lines with their texts taken by view
pub open spec fn listing_view(l: Seq<(String, u16)>) -> Seq<(Seq<char>, u16)> {
    l.map_values(|e: (String, u16)| (e.0@, e.1))
}

/// A breakpoint set at an address of the listing, and the reply that
/// names the listing line
pub open spec fn breakpoint_set(before: SessionView, addr: u16, after: SessionView, reply: Seq<char>) -> bool {
    &&& after == (SessionView { breakpoints: after.breakpoints, ..before })
    &&& increasing(after.breakpoints)
    &&& after.breakpoints.to_set() == before.breakpoints.to_set().insert(addr)
    &&& exists|i: int|
        0 <= i < before.listing.len() && #[trigger] before.listing[i].1 == addr && reply
            == "Setting breakpoint at "@ + "0x"@ + hex_min(addr as nat) + " ("@ + nat_digits(i as nat)
            + ")"@
}

/// A breakpoint refused at an address not found in the listing
pub open spec fn breakpoint_refused(before: SessionView, addr: u16, after: SessionView, reply: Seq<char>) -> bool {
    after == before && reply == "Cannot break at invalid address "@ + "0x"@ + hex_min(addr as nat)
        + ""@
}

/// What a command does: the session after it, its reply, and what it asks
/// of the CPU
pub open spec fn command_effect(
    before: SessionView,
    mem: Seq<u8>,
    da: DebuggerAction,
    after: SessionView,
    reply: Seq<char>,
    req: CpuRequest,
) -> bool {
    match da {
        DebuggerAction::Echo { str } => after == before && reply == str@ && req == CpuRequest::Nothing,
        DebuggerAction::Reset => after == before && reply == "CPU resetting"@ && req
            == CpuRequest::Reset,
        DebuggerAction::Run => after == (SessionView { running: true, ..before }) && reply
            == "Running..."@ && req == CpuRequest::Resume,
        DebuggerAction::Step => after == before && reply == "Stepping..."@ && req
            == CpuRequest::Step,
        DebuggerAction::WatchPoint { addr } => {
            &&& after == (SessionView { watchpoints: after.watchpoints, ..before })
            &&& after.watchpoints.to_set() == before.watchpoints.to_set().insert(addr)
            &&& reply == "Watchpoint set at "@ + "0x"@ + hex_min(addr as nat) + ""@
            &&& req == CpuRequest::Nothing
        },
        DebuggerAction::UnwatchPoint { addr } => {
            &&& after == (SessionView { watchpoints: after.watchpoints, ..before })
            &&& after.watchpoints.to_set() == before.watchpoints.to_set().remove(addr)
            &&& reply == "Removing watchpoint at "@ + "0x"@ + hex_min(addr as nat) + ""@
            &&& req == CpuRequest::Nothing
        },
        DebuggerAction::SetBreakPoint { addr } => {
            &&& req == CpuRequest::Nothing
            &&& breakpoint_set(before, addr, after, reply) || breakpoint_refused(
                before,
                addr,
                after,
                reply,
            )
            &&& pcs_sorted(before.listing, 0, before.listing.len() - 1) ==> if has_pc(
                before.listing,
                addr,
                0,
                before.listing.len() - 1,
            ) {
                breakpoint_set(before, addr, after, reply)
            } else {
                breakpoint_refused(before, addr, after, reply)
            }
        },
        DebuggerAction::UnsetBreakPoint { addr } => {
            &&& after == (SessionView { breakpoints: after.breakpoints, ..before })
            &&& after.breakpoints.to_set() == before.breakpoints.to_set().remove(addr)
            &&& reply == "Removing breakpoint at "@ + "0x"@ + hex_min(addr as nat) + ""@
            &&& req == CpuRequest::Nothing
        },
        DebuggerAction::RunToAddress { addr } => after == (SessionView {
            run_to_point: Some(addr),
            ..before
        }) && reply == "Going to "@ + "0x"@ + hex_min(addr as nat) + ""@ && req
            == CpuRequest::Nothing,
        DebuggerAction::Show { show } => after == before && req == CpuRequest::Nothing && match show {
            ShowableThing::Address { addr } => reply == "("@ + "0x"@ + hex_min(addr as nat) + ") = "@
                + "0x"@ + hex_min(mem[addr as int] as nat) + ""@,
            ShowableThing::Breakpoints => reply == "Breakpoints: "@ + set_text(before.breakpoints),
        },
    }
}

/// A listing of at most 0x7FFD bytes can always be made
proof fn lemma_short_listing_ok(rom: Seq<u8>, size: int, pc: nat)
    requires
        size <= 0x7FFD,
    ensures
        listing_ok(rom, size, pc),
    decreases if pc < size {
        size - pc
    } else {
        0
    },
{
    if pc < size {
        crate::disasm::lemma_op_size(rom[pc as int]);
        lemma_short_listing_ok(rom, size, (pc + crate::disasm::op_size(rom[pc as int])) as nat);
    }
}

/// A value's hexadecimal text has a digit at least
proof fn lemma_hex_min_nonempty(v: nat)
    ensures
        hex_min(v).len() >= 1,
    decreases v,
{
    if v >= 16 {
        lemma_hex_min_nonempty(v / 16);
    }
}

/// Appends `v` in hexadecimal with no leading zeros
fn push_hex_min(out: &mut String, v: u32)
    ensures
        final(out)@ == old(out)@ + hex_min(v as nat),
    decreases v,
{
    if v >= 16 {
        push_hex_min(out, v / 16);
    }
    out.append(hex_digit_text(v % 16));
    proof {
        if v >= 16 {
            assert(old(out)@ + hex_min((v / 16) as nat) + seq![hex_char((v % 16) as nat)]
                =~= old(out)@ + hex_min(v as nat));
        } else {
            assert(seq![hex_char((v % 16) as nat)] =~= hex_min(v as nat));
        }
    }
}

/// A text, then an address in hexadecimal after `0x`, then a text
fn hex_message(before: &str, addr: u32, after: &str) -> (r: String)
    ensures
        r@ == before@ + "0x"@ + hex_min(addr as nat) + after@,
{
    let mut s = String::from_str(before);
    s.append("0x");
    push_hex_min(&mut s, addr);
    s.append(after);
    s
}

/// Appends the items of a set's text
fn push_set_items(out: &mut String, s: &Vec<u16>)
    ensures
        final(out)@ == old(out)@ + set_items(s@),
{
    let ghost start = out@;
    let mut i: usize = 0;
    while i < s.len()
        invariant
            i <= s@.len(),
            out@ == start + set_items(s@.take(i as int)),
        decreases s@.len() - i,
    {
        proof {
            assert(s@.take(i + 1).drop_last() =~= s@.take(i as int));
        }
        if i > 0 {
            out.append(", ");
        }
        push_digits(out, s[i] as u64);
        proof {
            if i == 0 {
                assert(set_items(s@.take(1)) == nat_digits(s@[0] as nat));
                assert(set_items(s@.take(0)) =~= Seq::<char>::empty());
            }
            assert(start + set_items(s@.take(i as int)) + (if i > 0 {
                ", "@
            } else {
                seq![]
            }) + nat_digits(s@[i as int] as nat) =~= start + set_items(s@.take(i + 1)));
        }
        i = i + 1;
    }
    assert(s@.take(i as int) =~= s@);
}

/// Where `x` belongs in an increasing sequence: the first place whose value
/// is not below it
fn sorted_position(s: &Vec<u16>, x: u16) -> (r: usize)
    requires
        increasing(s@),
    ensures
        r <= s@.len(),
        forall|i: int| 0 <= i < r ==> s@[i] < x,
        forall|i: int| r <= i < s@.len() ==> x <= s@[i],
{
    let mut i: usize = 0;
    while i < s.len() && s[i] < x
        invariant
            i <= s@.len(),
            increasing(s@),
            forall|j: int| 0 <= j < i ==> s@[j] < x,
        decreases s@.len() - i,
    {
        i = i + 1;
    }
    i
}

/// Adds `x` to an increasing sequence
fn set_insert(s: &mut Vec<u16>, x: u16)
    requires
        increasing(old(s)@),
    ensures
        increasing(final(s)@),
        final(s)@.to_set() == old(s)@.to_set().insert(x),
{
    let p = sorted_position(s, x);
    if p < s.len() && s[p] == x {
        assert(old(s)@.to_set().insert(x) =~= old(s)@.to_set());
        return;
    }
    s.insert(p, x);
    assert(s@ =~= old(s)@.subrange(0, p as int).push(x) + old(s)@.subrange(p as int, old(s)@.len() as int));
    assert forall|y: u16| #[trigger] s@.to_set().contains(y) == old(s)@.to_set().insert(x).contains(y) by {
        if s@.contains(y) {
            let k = choose|k: int| 0 <= k < s@.len() && s@[k] == y;
            if k > p {
                assert(old(s)@[k - 1] == y);
            } else if k < p {
                assert(old(s)@[k] == y);
            }
        }
        if old(s)@.contains(y) {
            let k = choose|k: int| 0 <= k < old(s)@.len() && old(s)@[k] == y;
            if k >= p {
                assert(s@[k + 1] == y);
            } else {
                assert(s@[k] == y);
            }
        }
        if y == x {
            assert(s@[p as int] == x);
        }
    }
    assert(s@.to_set() =~= old(s)@.to_set().insert(x));
}

/// Takes `x` out of an increasing sequence
fn set_remove(s: &mut Vec<u16>, x: u16)
    requires
        increasing(old(s)@),
    ensures
        increasing(final(s)@),
        final(s)@.to_set() == old(s)@.to_set().remove(x),
{
    let p = sorted_position(s, x);
    if p < s.len() && s[p] == x {
        s.remove(p);
        assert(s@ =~= old(s)@.subrange(0, p as int) + old(s)@.subrange(p + 1, old(s)@.len() as int));
        assert forall|y: u16| #[trigger] s@.to_set().contains(y) == old(s)@.to_set().remove(x).contains(
            y,
        ) by {
            if s@.contains(y) {
                let k = choose|k: int| 0 <= k < s@.len() && s@[k] == y;
                if k >= p {
                    assert(old(s)@[k + 1] == y);
                } else {
                    assert(old(s)@[k] == y);
                }
            }
            if old(s)@.contains(y) && y != x {
                let k = choose|k: int| 0 <= k < old(s)@.len() && old(s)@[k] == y;
                if k > p {
                    assert(s@[k - 1] == y);
                } else {
                    assert(s@[k] == y);
                }
            }
        }
        assert(s@.to_set() =~= old(s)@.to_set().remove(x));
    } else {
        assert forall|y: u16| #[trigger] old(s)@.to_set().contains(y) implies y != x by {
            let k = choose|k: int| 0 <= k < old(s)@.len() && old(s)@[k] == y;
        }
        assert(old(s)@.to_set().remove(x) =~= old(s)@.to_set());
    }
}

impl DebugSession {
    /// A paused session for a CPU, with the listing of the first 0x7FF0
    /// bytes of its memory, an empty line, a history of two empty lines,
    /// and no watchpoints, breakpoints or target
    pub fn new(cpu: &Cpu) -> (s: DebugSession)
        requires
            cpu.wf(),
        ensures
            s@.wf(),
            listing_view(s@.listing) == listing(rom_image(cpu@.mem), 0x7FF0, 0),
            s@.input == Seq::<char>::empty(),
            s@.output == seq![Seq::<char>::empty(), Seq::<char>::empty()],
            !s@.running,
            s@.watchpoints == Seq::<u16>::empty(),
            s@.breakpoints == Seq::<u16>::empty(),
            s@.history_location == 0,
            s@.run_to_point is None,
    {
        let mut romcp = [0u8; 0x8000];
        let mut i: usize = 0;
        while i < 0x7FFF
            invariant
                i <= 0x7FFF,
                cpu.wf(),
                romcp@.len() == 0x8000,
                forall|j: int| 0 <= j < i ==> romcp@[j] == cpu@.mem[j],
                forall|j: int| i <= j < 0x8000 ==> romcp@[j] == 0,
            decreases 0x7FFF - i,
        {
            romcp[i] = cpu.mem[i];
            i = i + 1;
        }
        assert(romcp@ =~= rom_image(cpu@.mem));
        proof {
            lemma_short_listing_ok(romcp@, 0x7FF0, 0);
        }
        let l = disasm_rom_to_vec(romcp, 0x7FF0);
        proof {
            reveal_strlit("");
        }
        let mut out: Vec<String> = Vec::new();
        out.push(String::from_str(""));
        out.push(String::from_str(""));
        let s = DebugSession {
            listing: l,
            input_buffer: String::new(),
            output_buffer: out,
            running: false,
            watchpoints: Vec::new(),
            breakpoints: Vec::new(),
            history_location: 0,
            run_to_point: None,
        };
        assert(s.output_buffer@.len() == 2);
        assert(s.output_buffer@[0]@ =~= Seq::<char>::empty());
        assert(s.output_buffer@[1]@ =~= Seq::<char>::empty());
        assert(s@.output =~= seq![Seq::<char>::empty(), Seq::<char>::empty()]);
        s
    }

    /// Whether the debugger runs the CPU on its own
    pub fn should_run(&self) -> (r: bool)
        ensures
            r == self@.running,
    {
        self.running
    }

    /// Pauses the debugger
    pub fn pause(&mut self)
        ensures
            final(self)@ == (SessionView { running: false, ..old(self)@ }),
    {
        self.running = false;
    }

    /// The line being typed
    pub fn input(&self) -> (r: &String)
        ensures
            r@ == self@.input,
    {
        &self.input_buffer
    }

    /// The commands and replies so far, oldest first
    pub fn output(&self) -> (r: &Vec<String>)
        ensures
            r@.len() == self@.output.len(),
            forall|i: int| 0 <= i < r@.len() ==> #[trigger] r@[i]@ == self@.output[i],
    {
        &self.output_buffer
    }

    /// The watchpoints, in increasing order
    pub fn watchpoints(&self) -> (r: &Vec<u16>)
        ensures
            r@ == self@.watchpoints,
    {
        &self.watchpoints
    }

    /// The breakpoints, in increasing order
    pub fn breakpoints(&self) -> (r: &Vec<u16>)
        ensures
            r@ == self@.breakpoints,
    {
        &self.breakpoints
    }

    /// The address to run to, if one is set
    pub fn run_to_point(&self) -> (r: Option<u16>)
        ensures
            r == self@.run_to_point,
    {
        self.run_to_point
    }

    /// Line `val` of the history counted back from the latest command: the
    /// command `val` steps back, or nothing past the start
    fn get_nth_hist_item(&self, val: usize) -> (r: Option<String>)
        requires
            self@.wf(),
            val * 2 <= self@.output.len() + 1,
        ensures
            r is Some == self@.history_item(val as int) is Some,
            r is Some ==> self@.history_item(val as int) == Some(r->0@),
    {
        let offset = val * 2;
        let len = self.output_buffer.len();
        if offset > len - 1 {
            None
        } else {
            Some(self.output_buffer[(len - 2) - offset].clone())
        }
    }

    /// Reacts to a key: edits the line, moves in the history, or tells the
    /// terminal what to do
    pub fn handle_key(&mut self, key: Key) -> (e: KeyEffect)
        requires
            old(self)@.wf(),
            key matches Key::Char(v) ==> 0x20 <= v <= 0x7F,
        ensures
            final(self)@.wf(),
            final(self)@ == old(self)@.key_pressed(key),
            key_effect(key, final(self)@, e),
    {
        match key {
            Key::Left => KeyEffect::StepCpu,
            Key::Char(v) => {
                let one = utf8_decode(vec![v]);
                proof {
                    assert(crate::cpu::io::all_ascii(seq![v]));
                    assert(crate::cpu::io::ascii_chars(seq![v]) =~= seq![v as char]);
                }
                match one {
                    Some(t) => {
                        self.input_buffer.append(t.as_str());
                        assert(self@.input =~= old(self)@.input.push(v as char));
                    },
                    None => {},
                }
                KeyEffect::Nothing
            },
            Key::Backspace => {
                let n = self.input_buffer.as_str().unicode_len();
                if n > 0 {
                    let t = String::from_str(self.input_buffer.as_str().substring_char(0, n - 1));
                    self.input_buffer = t;
                    assert(self@.input =~= old(self)@.input.drop_last());
                }
                KeyEffect::Nothing
            },
            Key::DeleteLine => {
                self.input_buffer = String::new();
                KeyEffect::Nothing
            },
            Key::Up => {
                let next_hist = self.history_location;
                if let Some(item) = self.get_nth_hist_item(next_hist) {
                    self.input_buffer = item;
                    self.history_location = self.history_location + 1;
                }
                KeyEffect::Nothing
            },
            Key::Down => {
                let next_hist = if self.history_location == 0 {
                    0
                } else {
                    self.history_location - 1
                };
                if let Some(item) = self.get_nth_hist_item(next_hist) {
                    self.input_buffer = item;
                    self.history_location = next_hist;
                }
                KeyEffect::Nothing
            },
            Key::End => {
                self.pause();
                KeyEffect::HaltCpu
            },
            Key::Enter => {
                if self.input_buffer.as_str().unicode_len() == 0 {
                    if let Some(item) = self.get_nth_hist_item(0) {
                        self.input_buffer = item;
                    }
                }
                KeyEffect::Submit(self.input_buffer.clone())
            },
            Key::Other => KeyEffect::Nothing,
        }
    }

    /// Records a command and its reply: both go to the history, the line
    /// is cleared and the history starts again at the latest command
    pub fn record(&mut self, reply: String)
        requires
            old(self)@.wf(),
            old(self)@.output.len() + 4 <= usize::MAX,
        ensures
            final(self)@.wf(),
            final(self)@ == old(self)@.recorded(reply@),
    {
        let old_input_string = self.input_buffer.clone();
        self.output_buffer.push(old_input_string);
        self.output_buffer.push(reply);
        self.input_buffer = String::new();
        self.history_location = 0;
        assert(self@.output =~= old(self)@.output.push(old(self)@.input).push(reply@));
    }

    /// Runs a command: changes the session, and gives the reply and what
    /// the CPU has to do after it
    pub fn dispatch_debugger_action(&mut self, cpu: &Cpu, da: DebuggerAction) -> (r: (String, CpuRequest))
        requires
            old(self)@.wf(),
            cpu.wf(),
            da is SetBreakPoint ==> 1 <= old(self)@.listing.len() <= usize::MAX / 2,
        ensures
            final(self)@.wf(),
            final(self)@.output == old(self)@.output,
            command_effect(old(self)@, cpu@.mem, da, final(self)@, r.0@, r.1),
    {
        proof {
            reveal_strlit("");
        }
        match da {
            DebuggerAction::Echo { str: s } => (s, CpuRequest::Nothing),
            DebuggerAction::Reset => (String::from_str("CPU resetting"), CpuRequest::Reset),
            DebuggerAction::Run => {
                self.running = true;
                (String::from_str("Running..."), CpuRequest::Resume)
            },
            DebuggerAction::Step => (String::from_str("Stepping..."), CpuRequest::Step),
            DebuggerAction::WatchPoint { addr } => {
                set_insert(&mut self.watchpoints, addr);
                (hex_message("Watchpoint set at ", addr as u32, ""), CpuRequest::Nothing)
            },
            DebuggerAction::UnwatchPoint { addr } => {
                set_remove(&mut self.watchpoints, addr);
                (hex_message("Removing watchpoint at ", addr as u32, ""), CpuRequest::Nothing)
            },
            DebuggerAction::SetBreakPoint { addr } => {
                let ar_max = self.listing.len() - 1;
                let bp = binsearch_inst(&self.listing, addr, 0, ar_max);
                if let Some(inst) = bp {
                    let ghost before = self@;
                    set_insert(&mut self.breakpoints, addr);
                    let mut m = hex_message("Setting breakpoint at ", addr as u32, " (");
                    push_digits(&mut m, inst as u64);
                    m.append(")");
                    proof {
                        assert(self@.listing[inst as int].1 == addr);
                    }
                    (m, CpuRequest::Nothing)
                } else {
                    (hex_message("Cannot break at invalid address ", addr as u32, ""), CpuRequest::Nothing)
                }
            },
            DebuggerAction::UnsetBreakPoint { addr } => {
                set_remove(&mut self.breakpoints, addr);
                (hex_message("Removing breakpoint at ", addr as u32, ""), CpuRequest::Nothing)
            },
            DebuggerAction::RunToAddress { addr } => {
                self.run_to_point = Some(addr);
                (hex_message("Going to ", addr as u32, ""), CpuRequest::Nothing)
            },
            DebuggerAction::Show { show } => {
                match show {
                    ShowableThing::Address { addr } => {
                        let mut m = hex_message("(", addr as u32, ") = ");
                        m.append("0x");
                        push_hex_min(&mut m, cpu.mem[addr as usize] as u32);
                        (m, CpuRequest::Nothing)
                    },
                    ShowableThing::Breakpoints => {
                        let mut m = String::from_str("Breakpoints: ");
                        m.append("{");
                        push_set_items(&mut m, &self.breakpoints);
                        m.append("}");
                        assert(m@ =~= "Breakpoints: "@ + set_text(self@.breakpoints));
                        (m, CpuRequest::Nothing)
                    },
                }
            },
        }
    }
}

/// The history brings back the latest command: after a command and its
/// reply are recorded, Up puts that command on the line again.
pub proof fn lemma_up_recalls_last(s: SessionView, reply: Seq<char>)
    requires
        s.wf(),
    ensures
        s.recorded(reply).key_pressed(Key::Up).input == s.input,
        s.recorded(reply).key_pressed(Key::Up).history_location == 1,
{
    let t = s.recorded(reply);
    assert(t.output[t.output.len() - 2] == s.input);
}

} // verus!
