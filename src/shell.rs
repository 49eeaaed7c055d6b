//! Parsing of one line typed at the shell: its first word names a command,
//! the others are its arguments.

use vstd::prelude::*;
use crate::chat::{ChatConfig, ChatRole};

verus! {

/// Port of a chat session whose port argument is not a number.
pub const DEFAULT_CHAT_PORT: u16 = 8080;

/// A command of the shell.
#[derive(Debug, Clone)]
pub enum ShellCommand {
    Exit,
    Clear,
    Os,
    Tree,
    Tip,
    Search(String),
    Cd(String),
    Whoami,
    HeimdalHelp,
    Chat(ChatConfig),
    Unknown(String, Vec<String>),
}

/// The words that `str::split_whitespace` finds in `s`, in order.
pub uninterp spec fn whitespace_words(s: Seq<char>) -> Seq<Seq<char>>;

/// Relies on `str::split_whitespace`: the maximal runs of non-whitespace
/// characters of `s`, in order, as a function of `s` alone.
#[verifier::external_body]
fn split_words(s: &str) -> (r: Vec<String>)
    ensures
        r@.map_values(|w: String| w@) == whitespace_words(s@),
{
    s.split_whitespace().map(|w| w.to_string()).collect()
}

/// Whether `c` is an ASCII decimal digit.
pub open spec fn is_decimal_digit(c: char) -> bool {
    '0' <= c && c <= '9'
}

/// The number that a string of decimal digits stands for.
pub open spec fn digits_value(s: Seq<char>) -> nat
    decreases s.len(),
{
    if s.len() == 0 {
        0
    } else {
        digits_value(s.drop_last()) * 10 + ((s.last() as u32) - ('0' as u32)) as nat
    }
}

/// A `u16` written in decimal: an optional `+`, then one or more digits
/// whose value fits.
pub open spec fn decimal_u16(s: Seq<char>) -> Option<u16> {
    let d = if s.len() > 0 && s[0] == '+' { s.drop_first() } else { s };
    if d.len() > 0 && (forall|i: int| 0 <= i < d.len() ==> is_decimal_digit(#[trigger] d[i]))
        && digits_value(d) <= u16::MAX {
        Some(digits_value(d) as u16)
    } else {
        None
    }
}

/// Relies on `str::parse::<u16>`: accepts an optional `+` followed by ASCII
/// digits whose value fits in a `u16`, and nothing else.
#[verifier::external_body]
fn parse_u16(s: &str) -> (r: Option<u16>)
    ensures
        r == decimal_u16(s@),
{
    s.parse::<u16>().ok()
}

/// The port that a chat command's argument names.
pub open spec fn port_or_default(s: Seq<char>) -> u16 {
    match decimal_u16(s) {
        Some(p) => p,
        None => DEFAULT_CHAT_PORT,
    }
}

/// The argument at `i`, or the empty word.
pub open spec fn arg_or_empty(args: Seq<Seq<char>>, i: int) -> Seq<char> {
    if 0 <= i < args.len() { args[i] } else { Seq::empty() }
}

/// Whether `c` is what `chat host <name> <port> <password>` asks for.
pub open spec fn host_config(c: ChatConfig, args: Seq<Seq<char>>) -> bool {
    &&& c.role == ChatRole::Host
    &&& c.chat_name@ == args[1]
    &&& c.port == port_or_default(args[2])
    &&& c.remote_ip is None
    &&& c.password is Some
    &&& c.password->Some_0@ == args[3]
}

/// Whether `c` is what `chat guest <name> <ip> <port> <password>` asks for.
pub open spec fn guest_config(c: ChatConfig, args: Seq<Seq<char>>) -> bool {
    &&& c.role == ChatRole::Guest
    &&& c.chat_name@ == args[1]
    &&& c.remote_ip is Some
    &&& c.remote_ip->Some_0@ == args[2]
    &&& c.port == port_or_default(args[3])
    &&& c.password is Some
    &&& c.password->Some_0@ == args[4]
}

/// Whether `r` is the command that the words of a line give.
pub open spec fn command_of_words(words: Seq<Seq<char>>, r: ShellCommand) -> bool {
    let name = if words.len() > 0 { words[0] } else { Seq::<char>::empty() };
    let args = if words.len() > 0 { words.skip(1) } else { Seq::<Seq<char>>::empty() };
    if name == "exit"@ {
        r is Exit
    } else if name == "clear"@ {
        r is Clear
    } else if name == "os"@ {
        r is Os
    } else if name == "tree"@ {
        r is Tree
    } else if name == "tip"@ || name == "fortune"@ {
        r is Tip
    } else if name == "cd"@ {
        r matches ShellCommand::Cd(d) && d@ == arg_or_empty(args, 0)
    } else if name == "search"@ {
        r matches ShellCommand::Search(w) && w@ == arg_or_empty(args, 0)
    } else if name == "whoami"@ {
        r is Whoami
    } else if name == "heimdal"@ && args.len() > 0 && args[0] == "--help"@ {
        r is HeimdalHelp
    } else if name == "chat"@ && args.len() >= 4 && args[0] == "host"@ {
        r matches ShellCommand::Chat(c) && host_config(c, args)
    } else if name == "chat"@ && args.len() >= 5 && args[0] == "guest"@ {
        r matches ShellCommand::Chat(c) && guest_config(c, args)
    } else {
        r matches ShellCommand::Unknown(c, a) && c@ == name && a@.map_values(|s: String| s@) == args
    }
}

fn is_word(w: &String, literal: &str) -> (r: bool)
    ensures
        r == (w@ == literal@),
{
    *w == literal.to_owned()
}

fn word_or_empty(words: &Vec<String>, i: usize) -> (r: String)
    ensures
        i < words@.len() ==> r == words@[i as int],
        i >= words@.len() ==> r@ == Seq::<char>::empty(),
{
    if i < words.len() {
        words[i].clone()
    } else {
        String::new()
    }
}

/// Parses one line of shell input into a command.
pub fn parse_command(input: &str) -> (r: ShellCommand)
    ensures
        command_of_words(whitespace_words(input@), r),
{
    let words = split_words(input);
    let ghost ws = words@.map_values(|w: String| w@);
    let name = word_or_empty(&words, 0);
    let mut args: Vec<String> = Vec::new();
    let mut i: usize = 1;
    while i < words.len()
        invariant
            1 <= i,
            words@.len() > 0 ==> i <= words@.len(),
            words@.len() > 0 ==> args@ == words@.subrange(1, i as int),
            words@.len() == 0 ==> args@.len() == 0,
        decreases words@.len() - i,
    {
        args.push(words[i].clone());
        i = i + 1;
        assert(args@ =~= words@.subrange(1, i as int));
    }
    let ghost gargs = if ws.len() > 0 { ws.skip(1) } else { Seq::<Seq<char>>::empty() };
    assert(args@.map_values(|s: String| s@) =~= gargs);
    assert(name@ == if ws.len() > 0 { ws[0] } else { Seq::<char>::empty() });
    assert(forall|k: int| 0 <= k < args@.len() ==> args@[k]@ == gargs[k]);
    let n = args.len();
    if is_word(&name, "exit") {
        ShellCommand::Exit
    } else if is_word(&name, "clear") {
        ShellCommand::Clear
    } else if is_word(&name, "os") {
        ShellCommand::Os
    } else if is_word(&name, "tree") {
        ShellCommand::Tree
    } else if is_word(&name, "tip") || is_word(&name, "fortune") {
        ShellCommand::Tip
    } else if is_word(&name, "cd") {
        ShellCommand::Cd(word_or_empty(&args, 0))
    } else if is_word(&name, "search") {
        ShellCommand::Search(word_or_empty(&args, 0))
    } else if is_word(&name, "whoami") {
        ShellCommand::Whoami
    } else if is_word(&name, "heimdal") && n > 0 && is_word(&args[0], "--help") {
        ShellCommand::HeimdalHelp
    } else if is_word(&name, "chat") && n >= 4 && is_word(&args[0], "host") {
        ShellCommand::Chat(ChatConfig {
            role: ChatRole::Host,
            chat_name: args[1].clone(),
            port: match parse_u16(args[2].as_str()) {
                Some(p) => p,
                None => DEFAULT_CHAT_PORT,
            },
            remote_ip: None,
            password: Some(args[3].clone()),
        })
    } else if is_word(&name, "chat") && n >= 5 && is_word(&args[0], "guest") {
        ShellCommand::Chat(ChatConfig {
            role: ChatRole::Guest,
            chat_name: args[1].clone(),
            remote_ip: Some(args[2].clone()),
            port: match parse_u16(args[3].as_str()) {
                Some(p) => p,
                None => DEFAULT_CHAT_PORT,
            },
            password: Some(args[4].clone()),
        })
    } else {
        ShellCommand::Unknown(name, args)
    }
}

} // verus!
