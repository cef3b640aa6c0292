//! The command line: `serve --port <u16>` listens and echoes,
//! `client --addr <host:port> --message <string>` sends one message.

use vstd::prelude::*;
use vstd::string::StrSliceExecFns;

verus! {

/// What the command line asks for.
#[derive(Debug)]
pub struct Options {
    pub subcommands: Subcommands,
}

#[derive(Debug)]
pub enum Subcommands {
    Serve(Serve),
    Client(Client),
}

/// Listen on `port` and echo what arrives on each stream.
#[derive(Debug)]
pub struct Serve {
    pub port: u16,
}

/// Connect to `addr`, send `message` on one stream and print the answer.
#[derive(Debug)]
pub struct Client {
    pub addr: String,
    pub message: String,
}

/// A command line as contracts speak of it.
pub enum CommandLine {
    Serve(u16),
    Client(Seq<char>, Seq<char>),
}

impl View for Options {
    type V = CommandLine;

    open spec fn view(&self) -> CommandLine {
        match self.subcommands {
            Subcommands::Serve(serve) => CommandLine::Serve(serve.port),
            Subcommands::Client(client) => CommandLine::Client(client.addr@, client.message@),
        }
    }
}

pub open spec fn is_digit(c: char) -> bool {
    '0' <= c && c <= '9'
}

pub open spec fn all_digits(text: Seq<char>) -> bool {
    forall|i: int| 0 <= i < text.len() ==> is_digit(#[trigger] text[i])
}

/// The number that decimal digits spell.
pub open spec fn digits_value(text: Seq<char>) -> nat
    decreases text.len(),
{
    if text.len() == 0 {
        0
    } else {
        digits_value(text.drop_last()) * 10 + (text.last() as nat - '0' as nat) as nat
    }
}

/// The digits of a number that may be written with one plus sign in front.
pub open spec fn unsigned(text: Seq<char>) -> Seq<char> {
    if text.len() > 0 && text[0] == '+' {
        text.drop_first()
    } else {
        text
    }
}

/// The port that a word spells: one or more decimal digits whose value fits
/// sixteen bits, with or without one plus sign in front.
pub open spec fn spec_port(text: Seq<char>) -> Option<u16> {
    let digits = unsigned(text);
    if digits.len() > 0 && all_digits(digits) && digits_value(digits) <= 0xffff {
        Some(digits_value(digits) as u16)
    } else {
        None
    }
}

/// Whether a word has the look of an option: a hyphen and at least one
/// character more. Such a word is never taken for the value of an option;
/// the hyphen alone is a value like any other.
pub open spec fn is_option(word: Seq<char>) -> bool {
    word.len() >= 2 && word[0] == '-'
}

/// The client's command line from the two values, none of which may have
/// the look of an option.
pub open spec fn spec_client(addr: Seq<char>, message: Seq<char>) -> Option<CommandLine> {
    if is_option(addr) || is_option(message) {
        None
    } else {
        Some(CommandLine::Client(addr, message))
    }
}

/// The command line that the words spell in one of the plain forms, the
/// first word being the name of the program: `serve --port <port>`, or
/// `client` with `--addr <addr>` and `--message <message>` in either order,
/// where no value has the look of an option. `None` says that the words are
/// in none of these forms, not that they are no command: short options and
/// `--option=value` are forms that this function does not read.
pub open spec fn spec_parse(words: Seq<Seq<char>>) -> Option<CommandLine> {
    if words.len() == 4 && words[1] == "serve"@ && words[2] == "--port"@ {
        match spec_port(words[3]) {
            Some(port) => Some(CommandLine::Serve(port)),
            None => None,
        }
    } else if words.len() == 6 && words[1] == "client"@ && words[2] == "--addr"@ && words[4]
        == "--message"@ {
        spec_client(words[3], words[5])
    } else if words.len() == 6 && words[1] == "client"@ && words[2] == "--message"@ && words[4]
        == "--addr"@ {
        spec_client(words[5], words[3])
    } else {
        None
    }
}

/// The words of a command line, each as its characters.
pub open spec fn words_of(args: Seq<String>) -> Seq<Seq<char>> {
    Seq::new(args.len(), |i: int| args[i]@)
}

proof fn lemma_digits_grow(text: Seq<char>, upto: int)
    requires
        0 <= upto <= text.len(),
    ensures
        digits_value(text.subrange(0, upto)) <= digits_value(text),
    decreases text.len() - upto,
{
    if upto < text.len() {
        let longer = text.subrange(0, upto + 1);
        assert(longer.drop_last() =~= text.subrange(0, upto));
        lemma_digits_grow(text, upto + 1);
    } else {
        assert(text.subrange(0, upto) =~= text);
    }
}

fn same_text(a: &str, b: &str) -> (same: bool)
    ensures
        same == (a@ == b@),
{
    let n = a.unicode_len();
    if n != b.unicode_len() {
        return false;
    }
    let mut i: usize = 0;
    while i < n
        invariant
            i <= n,
            n == a@.len(),
            n == b@.len(),
            forall|k: int| 0 <= k < i ==> a@[k] == b@[k],
        decreases n - i,
    {
        if a.get_char(i) != b.get_char(i) {
            return false;
        }
        i = i + 1;
    }
    assert(a@ =~= b@);
    true
}

fn looks_like_option(word: &str) -> (looks: bool)
    ensures
        looks == is_option(word@),
{
    word.unicode_len() >= 2 && word.get_char(0) == '-'
}

/// The client's options from the two values.
fn client_options(addr: &String, message: &String) -> (options: Option<Options>)
    ensures
        match spec_client(addr@, message@) {
            Some(line) => options matches Some(made) && made@ == line,
            None => options is None,
        },
{
    if looks_like_option(addr.as_str()) || looks_like_option(message.as_str()) {
        None
    } else {
        let client = Client { addr: addr.clone(), message: message.clone() };
        Some(Options { subcommands: Subcommands::Client(client) })
    }
}

/// Reads a port number.
pub fn parse_port(text: &str) -> (port: Option<u16>)
    ensures
        port == spec_port(text@),
{
    let n = text.unicode_len();
    let start: usize = if n > 0 && text.get_char(0) == '+' {
        1
    } else {
        0
    };
    let ghost digits = unsigned(text@);
    assert(digits =~= text@.subrange(start as int, n as int));
    if start == n {
        return None;
    }
    let mut value: u32 = 0;
    let mut i: usize = start;
    while i < n
        invariant
            start <= i <= n,
            n == text@.len(),
            digits == unsigned(text@),
            digits == text@.subrange(start as int, n as int),
            all_digits(digits.subrange(0, i - start)),
            value as nat == digits_value(digits.subrange(0, i - start)),
            value <= 0xffff,
        decreases n - i,
    {
        let c = text.get_char(i);
        assert(digits[i - start] == c);
        if c < '0' || c > '9' {
            assert(!is_digit(digits[i - start]));
            return None;
        }
        let digit: u32 = c as u32 - '0' as u32;
        let ghost longer = digits.subrange(0, i - start + 1);
        proof {
            assert(longer.drop_last() =~= digits.subrange(0, i - start));
            assert(longer.last() == c);
            assert forall|k: int| 0 <= k < longer.len() implies is_digit(#[trigger] longer[k]) by {
                if k < i - start {
                    assert(digits.subrange(0, i - start)[k] == longer[k]);
                }
            }
        }
        value = value * 10 + digit;
        if value > 0xffff {
            proof {
                lemma_digits_grow(digits, i - start + 1);
            }
            return None;
        }
        i = i + 1;
    }
    assert(digits.subrange(0, n - start) =~= digits);
    Some(value as u16)
}

/// Reads the command line from its words, the first being the name of the
/// program, where they are in one of the plain forms. `None` where they are
/// not: the words may still be a command in a form that this function does
/// not read, such as one with short options or with `--option=value`.
pub fn parse(args: Vec<String>) -> (options: Option<Options>)
    ensures
        match spec_parse(words_of(args@)) {
            Some(line) => options matches Some(made) && made@ == line,
            None => options is None,
        },
{
    if args.len() == 4 {
        if same_text(args[1].as_str(), "serve") && same_text(args[2].as_str(), "--port") {
            return match parse_port(args[3].as_str()) {
                Some(port) => Some(Options { subcommands: Subcommands::Serve(Serve { port }) }),
                None => None,
            };
        }
        None
    } else if args.len() == 6 {
        if !same_text(args[1].as_str(), "client") {
            return None;
        }
        let addr_first = same_text(args[2].as_str(), "--addr") && same_text(
            args[4].as_str(),
            "--message",
        );
        let message_first = same_text(args[2].as_str(), "--message") && same_text(
            args[4].as_str(),
            "--addr",
        );
        if addr_first {
            client_options(&args[3], &args[5])
        } else if message_first {
            client_options(&args[5], &args[3])
        } else {
            None
        }
    } else {
        None
    }
}

} // verus!
