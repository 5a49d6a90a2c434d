//! The commands of the debugger, and a second, simpler language for them
use vstd::prelude::*;
use vstd::string::StringSliceAdditionalSpecFns;

verus! {

/// Something the debugger can show
#[derive(Debug, Clone, Copy, PartialEq, Eq, Structural)]
pub enum ShowableThing {
    Address { addr: u16 },
    Breakpoints,
}

/// A debugger command
#[derive(Debug, Clone, PartialEq, Eq)]
pub enum DebuggerAction {
    WatchPoint { addr: u16 },
    UnwatchPoint { addr: u16 },
    SetBreakPoint { addr: u16 },
    UnsetBreakPoint { addr: u16 },
    Show { show: ShowableThing },
    Step,
    Run,
    Reset,
    /// The value of an expression, printed in decimal
    Echo { str: String },
    RunToAddress { addr: u16 },
}

/// The bytes of an ASCII text
pub open spec fn ascii(s: Seq<char>) -> Seq<u8> {
    s.map_values(|c: char| c as u8)
}

/// What a step of the command parser comes to: done, with where the input
/// goes on and a value; more input wanted; or no match
pub ghost enum Parsed<T> {
    Done(int, T),
    More,
    NoMatch,
}

/// The text `t` at `i`: no match at the first byte that differs, more
/// input wanted when the input ends inside it
pub open spec fn tag_at(b: Seq<u8>, i: int, t: Seq<u8>) -> Parsed<()> {
    let m = if b.len() - i < t.len() {
        b.len() - i
    } else {
        t.len() as int
    };
    if b.subrange(i, i + m) != t.subrange(0, m) {
        Parsed::NoMatch
    } else if m < t.len() {
        Parsed::More
    } else {
        Parsed::Done(i + t.len(), ())
    }
}

/// A space or a tab
pub open spec fn is_blank(c: u8) -> bool {
    c == 0x20 || c == 0x09
}

/// Where the run of spaces and tabs from `i` ends
pub open spec fn blanks_end(b: Seq<u8>, i: int) -> int
    decreases b.len() - i,
{
    if 0 <= i < b.len() && is_blank(b[i]) {
        blanks_end(b, i + 1)
    } else {
        i
    }
}

/// One space or tab at least, taking the whole run: more input wanted at
/// the end of the input
pub open spec fn blanks_at(b: Seq<u8>, i: int) -> Parsed<()> {
    if i >= b.len() {
        Parsed::More
    } else if !is_blank(b[i]) {
        Parsed::NoMatch
    } else {
        Parsed::Done(blanks_end(b, i), ())
    }
}

/// The step after another one that is done
pub open spec fn and_then(p: Parsed<()>, q: spec_fn(int) -> Parsed<()>) -> Parsed<()> {
    match p {
        Parsed::Done(j, _) => q(j),
        Parsed::More => Parsed::More,
        Parsed::NoMatch => Parsed::NoMatch,
    }
}

/// The commands that end with an address
#[derive(Debug, Clone, Copy, PartialEq, Eq, Structural)]
pub enum AddressCommand {
    RunTo,
    Watch,
    Unwatch,
    SetBreakPoint,
    UnsetBreakPoint,
}

/// A command that ends with an address, with its address
pub open spec fn address_action(k: AddressCommand, n: u16) -> DebuggerAction {
    match k {
        AddressCommand::RunTo => DebuggerAction::RunToAddress { addr: n },
        AddressCommand::Watch => DebuggerAction::WatchPoint { addr: n },
        AddressCommand::Unwatch => DebuggerAction::UnwatchPoint { addr: n },
        AddressCommand::SetBreakPoint => DebuggerAction::SetBreakPoint { addr: n },
        AddressCommand::UnsetBreakPoint => DebuggerAction::UnsetBreakPoint { addr: n },
    }
}

/// A command's address after a step that is done: the next two bytes,
/// little-endian, or more input wanted
pub open spec fn with_address(b: Seq<u8>, p: Parsed<()>, k: AddressCommand) -> Parsed<DebuggerAction> {
    match p {
        Parsed::Done(j, _) => if b.len() - j < 2 {
            Parsed::More
        } else {
            Parsed::Done(j + 2, address_action(k, (b[j] + b[j + 1] * 256) as u16))
        },
        Parsed::More => Parsed::More,
        Parsed::NoMatch => Parsed::NoMatch,
    }
}

/// A command that is a word alone
pub open spec fn word_command(b: Seq<u8>, t: Seq<u8>, a: DebuggerAction) -> Parsed<DebuggerAction> {
    match tag_at(b, 0, t) {
        Parsed::Done(j, _) => Parsed::Done(j, a),
        Parsed::More => Parsed::More,
        Parsed::NoMatch => Parsed::NoMatch,
    }
}

/// `show`, blanks, and `breakpoints` or an address
pub open spec fn show_command(b: Seq<u8>) -> Parsed<DebuggerAction> {
    match and_then(tag_at(b, 0, ascii("show"@)), |j: int| blanks_at(b, j)) {
        Parsed::Done(j, _) => match tag_at(b, j, ascii("breakpoints"@)) {
            Parsed::Done(k, _) => Parsed::Done(k, DebuggerAction::Show { show: ShowableThing::Breakpoints }),
            Parsed::More => Parsed::More,
            Parsed::NoMatch => if b.len() - j < 2 {
                Parsed::More
            } else {
                Parsed::Done(
                    j + 2,
                    DebuggerAction::Show {
                        show: ShowableThing::Address { addr: (b[j] + b[j + 1] * 256) as u16 },
                    },
                )
            },
        },
        Parsed::More => Parsed::More,
        Parsed::NoMatch => Parsed::NoMatch,
    }
}

/// A word, blanks, and an address
pub open spec fn word_address_command(b: Seq<u8>, t: Seq<u8>, k: AddressCommand) -> Parsed<DebuggerAction> {
    with_address(b, and_then(tag_at(b, 0, t), |j: int| blanks_at(b, j)), k)
}

/// A word, blanks, `breakpoint`, blanks, and an address
pub open spec fn breakpoint_command(b: Seq<u8>, t: Seq<u8>, k: AddressCommand) -> Parsed<DebuggerAction> {
    with_address(
        b,
        and_then(
            and_then(
                and_then(tag_at(b, 0, t), |j: int| blanks_at(b, j)),
                |j: int| tag_at(b, j, ascii("breakpoint"@)),
            ),
            |j: int| blanks_at(b, j),
        ),
        k,
    )
}

/// The first of two alternatives that does not fail to match
pub open spec fn either(p: Parsed<DebuggerAction>, q: Parsed<DebuggerAction>) -> Parsed<DebuggerAction> {
    match p {
        Parsed::NoMatch => q,
        _ => p,
    }
}

/// The commands in the order they are tried: `run to` and an address,
/// `run`, `step`, `reset`, `show`, `watch`, `unwatch`, `set breakpoint`
/// and `unset breakpoint`; what follows a command is not looked at
pub open spec fn command_parsed(b: Seq<u8>) -> Parsed<DebuggerAction> {
    either(
        with_address(b, tag_at(b, 0, ascii("run to"@)), AddressCommand::RunTo),
        either(
            word_command(b, ascii("run"@), DebuggerAction::Run),
            either(
                word_command(b, ascii("step"@), DebuggerAction::Step),
                either(
                    word_command(b, ascii("reset"@), DebuggerAction::Reset),
                    either(
                        show_command(b),
                        either(
                            word_address_command(b, ascii("watch"@), AddressCommand::Watch),
                            either(
                                word_address_command(b, ascii("unwatch"@), AddressCommand::Unwatch),
                                either(
                                    breakpoint_command(b, ascii("set"@), AddressCommand::SetBreakPoint),
                                    breakpoint_command(
                                        b,
                                        ascii("unset"@),
                                        AddressCommand::UnsetBreakPoint,
                                    ),
                                ),
                            ),
                        ),
                    ),
                ),
            ),
        ),
    )
}

/// The bytes of the words of the commands
proof fn lemma_words()
    ensures
        ascii("run to"@) == seq![0x72u8, 0x75u8, 0x6Eu8, 0x20u8, 0x74u8, 0x6Fu8],
        ascii("run"@) == seq![0x72u8, 0x75u8, 0x6Eu8],
        ascii("step"@) == seq![0x73u8, 0x74u8, 0x65u8, 0x70u8],
        ascii("reset"@) == seq![0x72u8, 0x65u8, 0x73u8, 0x65u8, 0x74u8],
        ascii("show"@) == seq![0x73u8, 0x68u8, 0x6Fu8, 0x77u8],
        ascii("watch"@) == seq![0x77u8, 0x61u8, 0x74u8, 0x63u8, 0x68u8],
        ascii("unwatch"@) == seq![0x75u8, 0x6Eu8, 0x77u8, 0x61u8, 0x74u8, 0x63u8, 0x68u8],
        ascii("set"@) == seq![0x73u8, 0x65u8, 0x74u8],
        ascii("unset"@) == seq![0x75u8, 0x6Eu8, 0x73u8, 0x65u8, 0x74u8],
        ascii("breakpoint"@) == seq![0x62u8, 0x72u8, 0x65u8, 0x61u8, 0x6Bu8, 0x70u8, 0x6Fu8, 0x69u8, 0x6Eu8, 0x74u8],
        ascii("breakpoints"@) == seq![0x62u8, 0x72u8, 0x65u8, 0x61u8, 0x6Bu8, 0x70u8, 0x6Fu8, 0x69u8, 0x6Eu8, 0x74u8, 0x73u8],
{
    reveal_strlit("run to");
    reveal_strlit("run");
    reveal_strlit("step");
    reveal_strlit("reset");
    reveal_strlit("show");
    reveal_strlit("watch");
    reveal_strlit("unwatch");
    reveal_strlit("set");
    reveal_strlit("unset");
    reveal_strlit("breakpoint");
    reveal_strlit("breakpoints");
    assert(ascii("run to"@) =~= seq![0x72u8, 0x75u8, 0x6Eu8, 0x20u8, 0x74u8, 0x6Fu8]);
    assert(ascii("run"@) =~= seq![0x72u8, 0x75u8, 0x6Eu8]);
    assert(ascii("step"@) =~= seq![0x73u8, 0x74u8, 0x65u8, 0x70u8]);
    assert(ascii("reset"@) =~= seq![0x72u8, 0x65u8, 0x73u8, 0x65u8, 0x74u8]);
    assert(ascii("show"@) =~= seq![0x73u8, 0x68u8, 0x6Fu8, 0x77u8]);
    assert(ascii("watch"@) =~= seq![0x77u8, 0x61u8, 0x74u8, 0x63u8, 0x68u8]);
    assert(ascii("unwatch"@) =~= seq![0x75u8, 0x6Eu8, 0x77u8, 0x61u8, 0x74u8, 0x63u8, 0x68u8]);
    assert(ascii("set"@) =~= seq![0x73u8, 0x65u8, 0x74u8]);
    assert(ascii("unset"@) =~= seq![0x75u8, 0x6Eu8, 0x73u8, 0x65u8, 0x74u8]);
    assert(ascii("breakpoint"@) =~= seq![0x62u8, 0x72u8, 0x65u8, 0x61u8, 0x6Bu8, 0x70u8, 0x6Fu8, 0x69u8, 0x6Eu8, 0x74u8]);
    assert(ascii("breakpoints"@) =~= seq![0x62u8, 0x72u8, 0x65u8, 0x61u8, 0x6Bu8, 0x70u8, 0x6Fu8, 0x69u8, 0x6Eu8, 0x74u8, 0x73u8]);
}

/// How far a step of the parser got, as code sees it
pub enum Step {
    Done(usize),
    More,
    NoMatch,
}

/// A step as a parse result
pub open spec fn step_view(s: Step) -> Parsed<()> {
    match s {
        Step::Done(j) => Parsed::Done(j as int, ()),
        Step::More => Parsed::More,
        Step::NoMatch => Parsed::NoMatch,
    }
}

/// What a command parse found, as code sees it
pub enum Found {
    Action(DebuggerAction),
    More,
    NoMatch,
}

/// Whether a found command is a parse result
pub open spec fn found_is(f: Found, p: Parsed<DebuggerAction>) -> bool {
    match p {
        Parsed::Done(_, a) => f == Found::Action(a),
        Parsed::More => f is More,
        Parsed::NoMatch => f is NoMatch,
    }
}

/// Matches the text `t` at `i`
fn tag_exec(b: &[u8], i: usize, t: &[u8]) -> (r: Step)
    requires
        i <= b@.len(),
    ensures
        step_view(r) == tag_at(b@, i as int, t@),
        r matches Step::Done(j) ==> j <= b@.len(),
{
    let n = b.len();
    let m = if n - i < t.len() {
        n - i
    } else {
        t.len()
    };
    let mut k: usize = 0;
    while k < m
        invariant
            k <= m,
            m <= t@.len(),
            i + m <= b@.len(),
            n == b@.len(),
            forall|x: int| 0 <= x < k ==> b@[i + x] == t@[x],
        decreases m - k,
    {
        if b[i + k] != t[k] {
            assert(b@.subrange(i as int, i + m)[k as int] != t@.subrange(0, m as int)[k as int]);
            return Step::NoMatch;
        }
        k = k + 1;
    }
    assert(b@.subrange(i as int, i + m) =~= t@.subrange(0, m as int));
    if m < t.len() {
        Step::More
    } else {
        Step::Done(i + t.len())
    }
}

/// Where the run of spaces and tabs from `i` ends
fn blanks_end_exec(b: &[u8], i: usize) -> (r: usize)
    requires
        i <= b@.len(),
    ensures
        r == blanks_end(b@, i as int),
        r <= b@.len(),
    decreases b@.len() - i,
{
    if i < b.len() && (b[i] == 0x20 || b[i] == 0x09) {
        blanks_end_exec(b, i + 1)
    } else {
        i
    }
}

/// One space or tab at least, taking the whole run, after a step that is
/// done
fn blanks_after(b: &[u8], s: Step) -> (r: Step)
    requires
        s matches Step::Done(j) ==> j <= b@.len(),
    ensures
        step_view(r) == and_then(step_view(s), |j: int| blanks_at(b@, j)),
        r matches Step::Done(j) ==> j <= b@.len(),
{
    match s {
        Step::Done(i) => {
            if i >= b.len() {
                Step::More
            } else if !(b[i] == 0x20 || b[i] == 0x09) {
                Step::NoMatch
            } else {
                Step::Done(blanks_end_exec(b, i))
            }
        },
        Step::More => Step::More,
        Step::NoMatch => Step::NoMatch,
    }
}

/// The text `t` after a step that is done
fn tag_after(b: &[u8], s: Step, t: &[u8]) -> (r: Step)
    requires
        s matches Step::Done(j) ==> j <= b@.len(),
    ensures
        step_view(r) == and_then(step_view(s), |j: int| tag_at(b@, j, t@)),
        r matches Step::Done(j) ==> j <= b@.len(),
{
    match s {
        Step::Done(i) => tag_exec(b, i, t),
        Step::More => Step::More,
        Step::NoMatch => Step::NoMatch,
    }
}

/// A command that ends with an address, with its address
fn address_action_exec(k: AddressCommand, n: u16) -> (a: DebuggerAction)
    ensures
        a == address_action(k, n),
{
    match k {
        AddressCommand::RunTo => DebuggerAction::RunToAddress { addr: n },
        AddressCommand::Watch => DebuggerAction::WatchPoint { addr: n },
        AddressCommand::Unwatch => DebuggerAction::UnwatchPoint { addr: n },
        AddressCommand::SetBreakPoint => DebuggerAction::SetBreakPoint { addr: n },
        AddressCommand::UnsetBreakPoint => DebuggerAction::UnsetBreakPoint { addr: n },
    }
}

/// The address after a step that is done
fn address_after(b: &[u8], s: Step, k: AddressCommand) -> (r: Found)
    requires
        s matches Step::Done(j) ==> j <= b@.len(),
    ensures
        found_is(r, with_address(b@, step_view(s), k)),
{
    match s {
        Step::Done(j) => {
            if b.len() - j < 2 {
                Found::More
            } else {
                Found::Action(address_action_exec(k, (b[j] as u16) + (b[j + 1] as u16) * 256))
            }
        },
        Step::More => Found::More,
        Step::NoMatch => Found::NoMatch,
    }
}

/// A command that is a word alone
fn word_exec(b: &[u8], t: &[u8], a: DebuggerAction) -> (r: Found)
    ensures
        found_is(r, word_command(b@, t@, a)),
{
    match tag_exec(b, 0, t) {
        Step::Done(_) => Found::Action(a),
        Step::More => Found::More,
        Step::NoMatch => Found::NoMatch,
    }
}

/// `show`, blanks, and `breakpoints` or an address
fn show_exec(b: &[u8]) -> (r: Found)
    ensures
        found_is(r, show_command(b@)),
{
    proof {
        lemma_words();
    }
    let s = blanks_after(b, tag_exec(b, 0, &[0x73u8, 0x68u8, 0x6Fu8, 0x77u8]));
    match s {
        Step::Done(j) => match tag_exec(
            b,
            j,
            &[0x62u8, 0x72u8, 0x65u8, 0x61u8, 0x6Bu8, 0x70u8, 0x6Fu8, 0x69u8, 0x6Eu8, 0x74u8, 0x73u8],
        ) {
            Step::Done(_) => Found::Action(DebuggerAction::Show { show: ShowableThing::Breakpoints }),
            Step::More => Found::More,
            Step::NoMatch => if b.len() - j < 2 {
                Found::More
            } else {
                Found::Action(
                    DebuggerAction::Show {
                        show: ShowableThing::Address { addr: (b[j] as u16) + (b[j + 1] as u16) * 256 },
                    },
                )
            },
        },
        Step::More => Found::More,
        Step::NoMatch => Found::NoMatch,
    }
}

/// A word, blanks, and an address
fn word_address_exec(b: &[u8], t: &[u8], k: AddressCommand) -> (r: Found)
    ensures
        found_is(r, word_address_command(b@, t@, k)),
{
    address_after(b, blanks_after(b, tag_exec(b, 0, t)), k)
}

/// A word, blanks, `breakpoint`, blanks, and an address
fn breakpoint_exec(b: &[u8], t: &[u8], k: AddressCommand) -> (r: Found)
    ensures
        found_is(r, breakpoint_command(b@, t@, k)),
{
    proof {
        lemma_words();
    }
    let s1 = blanks_after(b, tag_exec(b, 0, t));
    let s2 = tag_after(b, s1, &[0x62u8, 0x72u8, 0x65u8, 0x61u8, 0x6Bu8, 0x70u8, 0x6Fu8, 0x69u8, 0x6Eu8, 0x74u8]);
    address_after(b, blanks_after(b, s2), k)
}

/// The command parsed by the earlier alternative when it matches, else
/// by the later
fn either_exec(p: Found, q: Found) -> (r: Found)
    ensures
        p is NoMatch ==> r == q,
        !(p is NoMatch) ==> r == p,
{
    match p {
        Found::NoMatch => q,
        _ => p,
    }
}

/// Parses a debugger command from the start of a text: `run to` and an
/// address, `run`, `step`, `reset`, `show` and `breakpoints` or an address,
/// `watch` or `unwatch` and an address, or `set` or `unset`, `breakpoint`
/// and an address, with spaces or tabs between the words. An address is
/// the two bytes after its word (or `run to`), little-endian. What follows
/// a command is not looked at. Nothing is given when no command matches,
/// or when the text ends before one does.
pub fn parse_debug_language(input: &str) -> (r: Option<DebuggerAction>)
    ensures
        r == match command_parsed(input.spec_bytes()) {
            Parsed::Done(_, a) => Some(a),
            _ => None::<DebuggerAction>,
        },
{
    proof {
        lemma_words();
    }
    let b = input.as_bytes();
    let found = either_exec(
        address_after(b, tag_exec(b, 0, &[0x72u8, 0x75u8, 0x6Eu8, 0x20u8, 0x74u8, 0x6Fu8]), AddressCommand::RunTo),
        either_exec(
            word_exec(b, &[0x72u8, 0x75u8, 0x6Eu8], DebuggerAction::Run),
            either_exec(
                word_exec(b, &[0x73u8, 0x74u8, 0x65u8, 0x70u8], DebuggerAction::Step),
                either_exec(
                    word_exec(b, &[0x72u8, 0x65u8, 0x73u8, 0x65u8, 0x74u8], DebuggerAction::Reset),
                    either_exec(
                        show_exec(b),
                        either_exec(
                            word_address_exec(b, &[0x77u8, 0x61u8, 0x74u8, 0x63u8, 0x68u8], AddressCommand::Watch),
                            either_exec(
                                word_address_exec(
                                    b,
                                    &[0x75u8, 0x6Eu8, 0x77u8, 0x61u8, 0x74u8, 0x63u8, 0x68u8],
                                    AddressCommand::Unwatch,
                                ),
                                either_exec(
                                    breakpoint_exec(b, &[0x73u8, 0x65u8, 0x74u8], AddressCommand::SetBreakPoint),
                                    breakpoint_exec(
                                        b,
                                        &[0x75u8, 0x6Eu8, 0x73u8, 0x65u8, 0x74u8],
                                        AddressCommand::UnsetBreakPoint,
                                    ),
                                ),
                            ),
                        ),
                    ),
                ),
            ),
        ),
    );
    match found {
        Found::Action(a) => Some(a),
        _ => None,
    }
}

} // verus!
