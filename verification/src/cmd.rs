//! The command line: which command was asked for, what `devices` prints,
//! and the checks and messages of `send` and `get`.
use vstd::prelude::*;
use crate::devices::{EntryText, entry_text, entries_text};
use crate::error::{AppError, AppResult};
use crate::text::{text_equal, decimal, decimal_string, join2, join3, join4};
use crate::types::DeviceEntry;

verus! {

/// Seconds `get` waits for the peer's clipboard.
pub const GET_REMOTE_TIMEOUT_SECS: u64 = 5;

/// Seconds `get` gives the local clipboard write.
pub const GET_LOCAL_WRITE_TIMEOUT_SECS: u64 = 4;

/// A command asked for on the command line.
#[derive(Debug, Clone)]
pub enum Command {
    Devices,
    Send(String),
    Get(String),
    Daemon,
    Init,
}

/// The command that `args` (the arguments after the program's name) ask
/// for, or the message refusing them. Arguments after those a command
/// takes are ignored.
pub open spec fn command_outcome(args: Seq<Seq<char>>) -> Result<(Seq<char>, Option<Seq<char>>), Seq<char>> {
    if args.len() == 0 {
        Err("no command provided (expected: devices, send, get, daemon, init)"@)
    } else if args[0] == "devices"@ || args[0] == "daemon"@ || args[0] == "init"@ {
        Ok((args[0], None))
    } else if args[0] == "send"@ || args[0] == "get"@ {
        if args.len() < 2 {
            Err("missing target device"@)
        } else {
            Ok((args[0], Some(args[1])))
        }
    } else {
        Err("unknown command: "@ + args[0])
    }
}

/// `send` and `get` take the argument after them as the target device and
/// need no more: with at least two arguments they name their target, with
/// the command alone they are refused for the missing target, and arguments
/// after the target change nothing. `devices`, `daemon` and `init` take no
/// target.
pub proof fn lemma_command_targets(args: Seq<Seq<char>>)
    ensures
        args.len() >= 2 && (args[0] == "send"@ || args[0] == "get"@) ==> command_outcome(args)
            == Ok::<(Seq<char>, Option<Seq<char>>), Seq<char>>((args[0], Some(args[1]))),
        args.len() == 1 && (args[0] == "send"@ || args[0] == "get"@) ==> command_outcome(args)
            == Err::<(Seq<char>, Option<Seq<char>>), Seq<char>>("missing target device"@),
        args.len() >= 1 && (args[0] == "devices"@ || args[0] == "daemon"@ || args[0] == "init"@)
            ==> command_outcome(args) == Ok::<(Seq<char>, Option<Seq<char>>), Seq<char>>(
            (args[0], None),
        ),
        args.len() >= 2 ==> command_outcome(args) == command_outcome(args.take(2)),
        args.len() >= 1 && command_outcome(args) is Ok ==> command_outcome(args)->Ok_0.0
            == args[0],
{
    reveal_strlit("send");
    reveal_strlit("get");
    reveal_strlit("devices");
    reveal_strlit("daemon");
    reveal_strlit("init");
    assert("send"@ != "devices"@ && "send"@ != "daemon"@ && "send"@ != "init"@) by {
        assert("send"@[0] != "devices"@[0] && "send"@[0] != "daemon"@[0] && "send"@[0]
            != "init"@[0]);
    }
    assert("get"@ != "devices"@ && "get"@ != "daemon"@ && "get"@ != "init"@) by {
        assert("get"@[0] != "devices"@[0] && "get"@[0] != "daemon"@[0] && "get"@[0]
            != "init"@[0]);
    }
    if args.len() >= 2 {
        let t = args.take(2);
        assert(t[0] == args[0] && t[1] == args[1]);
    }
}

/// The name and target of a command.
pub open spec fn command_view(c: Command) -> (Seq<char>, Option<Seq<char>>) {
    match c {
        Command::Devices => ("devices"@, None),
        Command::Send(t) => ("send"@, Some(t@)),
        Command::Get(t) => ("get"@, Some(t@)),
        Command::Daemon => ("daemon"@, None),
        Command::Init => ("init"@, None),
    }
}

/// Reads the command from the arguments after the program's name.
pub fn parse_command(args: &Vec<String>) -> (r: AppResult<Command>)
    ensures
        match command_outcome(args@.map_values(|a: String| a@)) {
            Ok(c) => r matches Ok(x) && command_view(x) == c,
            Err(m) => r matches Err(AppError::Message(x)) && x@ == m,
        },
{
    let ghost views = args@.map_values(|a: String| a@);
    if args.len() == 0 {
        return Err(
            AppError::Message(
                String::from_str("no command provided (expected: devices, send, get, daemon, init)"),
            ),
        );
    }
    let first = args[0].as_str();
    assert(views[0] == first@);
    if text_equal(first, "devices") {
        return Ok(Command::Devices);
    }
    if text_equal(first, "daemon") {
        return Ok(Command::Daemon);
    }
    if text_equal(first, "init") {
        return Ok(Command::Init);
    }
    let is_send = text_equal(first, "send");
    let is_get = text_equal(first, "get");
    if is_send || is_get {
        if args.len() < 2 {
            return Err(AppError::Message(String::from_str("missing target device")));
        }
        assert(views[1] == args@[1]@);
        let target = args[1].clone();
        if is_send {
            return Ok(Command::Send(target));
        } else {
            return Ok(Command::Get(target));
        }
    }
    Err(AppError::Message(join2("unknown command: ", first)))
}

/// The line `devices` prints for one peer: alias, tab, address.
pub open spec fn device_line(e: EntryText) -> Seq<char> {
    e.0 + "\t"@ + e.1 + "\n"@
}

/// The lines of the peers, in order.
pub open spec fn rendered(es: Seq<EntryText>) -> Seq<char>
    decreases es.len(),
{
    if es.len() == 0 {
        Seq::empty()
    } else {
        rendered(es.drop_last()) + device_line(es.last())
    }
}

/// What `devices` prints: one `alias<TAB>address` line per peer, in the
/// order given.
pub fn render_devices(devices: &[DeviceEntry]) -> (r: String)
    ensures
        r@ == rendered(entries_text(devices@)),
{
    let mut out = String::new();
    let ghost all = entries_text(devices@);
    let mut i: usize = 0;
    while i < devices.len()
        invariant
            all == entries_text(devices@),
            i <= devices.len(),
            out@ == rendered(all.take(i as int)),
        decreases devices.len() - i,
    {
        let device = &devices[i];
        proof {
            assert(all.take(i + 1).drop_last() =~= all.take(i as int));
            assert(all[i as int] == entry_text(devices@[i as int]));
        }
        out.append(device.alias.as_str());
        out.append("\t");
        out.append(device.address.as_str());
        out.append("\n");
        i += 1;
    }
    proof {
        assert(all.take(devices.len() as int) =~= all);
    }
    out
}

/// The lines of two runs of peers are the lines of the first followed by
/// the lines of the second.
pub proof fn lemma_rendered_append(a: Seq<EntryText>, b: Seq<EntryText>)
    ensures
        rendered(a + b) == rendered(a) + rendered(b),
    decreases b.len(),
{
    if b.len() == 0 {
        assert(a + b =~= a);
        assert(rendered(a) + rendered(b) =~= rendered(a));
    } else {
        lemma_rendered_append(a, b.drop_last());
        assert((a + b).drop_last() =~= a + b.drop_last());
        assert((a + b).last() == b.last());
    }
}

/// `get` refuses to overwrite the local clipboard with an empty text.
pub fn check_remote_text(target: &str, text: &str) -> (r: AppResult<()>)
    ensures
        text@.len() > 0 ==> r is Ok,
        text@.len() == 0 ==> (r matches Err(AppError::Message(m)) && m@
            == "remote clipboard from "@ + target@
            + " is empty; refusing to overwrite local clipboard"@),
{
    if text.is_empty() {
        Err(
            AppError::Message(
                join3(
                    "remote clipboard from ",
                    target,
                    " is empty; refusing to overwrite local clipboard",
                ),
            ),
        )
    } else {
        Ok(())
    }
}

/// The error for a peer that did not answer `get` in time.
pub fn remote_read_timeout(target: &str, secs: u64) -> (r: AppError)
    ensures
        r matches AppError::TransportTimeout(m) && m@ == "timed out reading clipboard from "@
            + target@ + " after "@ + decimal(secs as nat) + "s"@,
{
    let n = decimal_string(secs);
    let mut m = join4("timed out reading clipboard from ", target, " after ", n.as_str());
    m.append("s");
    AppError::TransportTimeout(m)
}

/// The error for a local clipboard read task of `send` that did not complete.
pub fn read_task_failure(detail: &str) -> (r: AppError)
    ensures
        r matches AppError::Message(m) && m@ == "clipboard read task failed: "@ + detail@,
{
    AppError::Message(join2("clipboard read task failed: ", detail))
}

/// What `send` prints once the peer has the text.
pub fn sent_message(target: &str) -> (r: String)
    ensures
        r@ == "sent clipboard to "@ + target@,
{
    join2("sent clipboard to ", target)
}

/// What `get` prints once the local clipboard has the text.
pub fn fetched_message(target: &str) -> (r: String)
    ensures
        r@ == "fetched clipboard from "@ + target@,
{
    join2("fetched clipboard from ", target)
}

/// What `init` prints once the template is written.
pub fn created_message(path: &str) -> (r: String)
    ensures
        r@ == "created config at "@ + path@,
{
    join2("created config at ", path)
}

} // verus!

verus! {

/// A field that holds neither a tab nor a line break.
pub open spec fn field_clean(s: Seq<char>) -> bool {
    !s.contains('\t') && !s.contains('\n')
}

/// The position of the first `c` in `s`, or the length of `s` when there is none.
pub open spec fn find_char(s: Seq<char>, c: char) -> nat
    decreases s.len(),
{
    if s.len() == 0 {
        0
    } else if s[0] == c {
        0
    } else {
        1 + find_char(s.drop_first(), c)
    }
}

/// The first `c` in `s` is within `s`.
pub proof fn lemma_find_char_bound(s: Seq<char>, c: char)
    ensures
        find_char(s, c) <= s.len(),
        find_char(s, c) < s.len() ==> s[find_char(s, c) as int] == c,
    decreases s.len(),
{
    if s.len() > 0 && s[0] != c {
        lemma_find_char_bound(s.drop_first(), c);
    }
}

proof fn lemma_find_char_append(x: Seq<char>, y: Seq<char>, c: char)
    requires
        !x.contains(c),
    ensures
        find_char(x + y, c) == x.len() + find_char(y, c),
    decreases x.len(),
{
    if x.len() > 0 {
        assert((x + y)[0] == x[0]);
        assert(!x.drop_first().contains(c)) by {
            if x.drop_first().contains(c) {
                let i = choose|i: int| 0 <= i < x.drop_first().len() && x.drop_first()[i] == c;
                assert(x[i + 1] == c);
            }
        }
        lemma_find_char_append(x.drop_first(), y, c);
        assert((x + y).drop_first() =~= x.drop_first() + y);
    } else {
        assert(x + y =~= y);
    }
}

/// Reads the output of `devices` back: each line, cut at its first tab,
/// gives an alias and an address.
pub open spec fn parse_rendered(t: Seq<char>) -> Seq<EntryText>
    decreases t.len(),
{
    if t.len() == 0 {
        Seq::empty()
    } else {
        let line_end = find_char(t, '\n');
        let line = t.take(line_end as int);
        let tab = find_char(line, '\t');
        let entry = (
            line.take(tab as int),
            if tab < line.len() {
                line.skip((tab + 1) as int)
            } else {
                Seq::empty()
            },
        );
        if line_end < t.len() {
            proof {
                lemma_find_char_bound(t, '\n');
            }
            seq![entry] + parse_rendered(t.skip((line_end + 1) as int))
        } else {
            seq![entry]
        }
    }
}

/// Where no alias or address holds a tab or a line break, the output of
/// `devices` gives back exactly the listed pairs, in order.
pub proof fn lemma_rendered_parses_back(es: Seq<EntryText>)
    requires
        forall|i: int| 0 <= i < es.len() ==> field_clean(#[trigger] es[i].0) && field_clean(es[i].1),
    ensures
        parse_rendered(rendered(es)) == es,
    decreases es.len(),
{
    reveal_strlit("\t");
    reveal_strlit("\n");
    if es.len() > 0 {
        let e = es[0];
        let rest = es.drop_first();
        assert forall|i: int| 0 <= i < rest.len() implies field_clean(#[trigger] rest[i].0)
            && field_clean(rest[i].1) by {
            assert(rest[i] == es[i + 1]);
        }
        lemma_rendered_parses_back(rest);
        lemma_rendered_append(seq![e], rest);
        assert(seq![e] + rest =~= es);
        assert(seq![e].drop_last() =~= Seq::<EntryText>::empty());
        let a = e.0;
        let b = e.1;
        let r = rendered(rest);
        assert(seq![e].last() == e);
        assert(rendered(seq![e].drop_last()) == Seq::<char>::empty());
        assert(Seq::<char>::empty() + device_line(e) =~= device_line(e));
        assert(rendered(seq![e]) == device_line(e));
        let t = rendered(es);
        assert(t =~= a + (seq!['\t'] + (b + (seq!['\n'] + r))));
        // the line ends after the address
        assert(!(seq!['\t'] + b).contains('\n')) by {
            if (seq!['\t'] + b).contains('\n') {
                let i = choose|i: int| 0 <= i < (seq!['\t'] + b).len() && (seq!['\t'] + b)[i] == '\n';
                assert(b[i - 1] == '\n');
            }
        }
        lemma_find_char_append(a, seq!['\t'] + (b + (seq!['\n'] + r)), '\n');
        assert(seq!['\t'] + (b + (seq!['\n'] + r)) =~= seq!['\t'] + b + (seq!['\n'] + r));
        lemma_find_char_append(seq!['\t'] + b, seq!['\n'] + r, '\n');
        assert(find_char(seq!['\n'] + r, '\n') == 0);
        let line_end = a.len() + 1 + b.len();
        assert(find_char(t, '\n') == line_end);
        let line = t.take(line_end as int);
        assert(line =~= a + (seq!['\t'] + b));
        lemma_find_char_append(a, seq!['\t'] + b, '\t');
        assert(find_char(seq!['\t'] + b, '\t') == 0);
        assert(find_char(line, '\t') == a.len());
        assert(line.take(a.len() as int) =~= a);
        assert(line.skip((a.len() + 1) as int) =~= b);
        assert(t.skip((line_end + 1) as int) =~= r);
        assert(parse_rendered(t) =~= seq![(a, b)] + rest);
    } else {
        assert(rendered(es) =~= Seq::<char>::empty());
        assert(es =~= Seq::<EntryText>::empty());
    }
}

} // verus!
