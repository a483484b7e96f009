//! The server's command line: `[-p <port>] [--port <port>]`.
use vstd::prelude::*;
use crate::text::{parse_unsigned, parse_unsigned_upto, str_eq, views};

verus! {

/// Why the command line was refused.
#[derive(Debug, PartialEq)]
pub enum PortError {
    /// A port option's value is not a port number; the value.
    InvalidPort(String),
    /// A port option is the last argument.
    MissingValue,
    /// An argument that is not an option the server knows; the argument and
    /// the program's name.
    UnknownOption { option: String, program: String },
}

/// A refusal as mathematical values.
pub enum PortErrorView {
    InvalidPort(Seq<char>),
    MissingValue,
    UnknownOption(Seq<char>, Seq<char>),
}

impl View for PortError {
    type V = PortErrorView;

    open spec fn view(&self) -> PortErrorView {
        match self {
            PortError::InvalidPort(v) => PortErrorView::InvalidPort(v@),
            PortError::MissingValue => PortErrorView::MissingValue,
            PortError::UnknownOption { option, program } => PortErrorView::UnknownOption(option@, program@),
        }
    }
}

/// The port that the arguments from position `i` on choose, `port` being
/// the one chosen so far: each `-p`/`--port` option sets it to the number
/// that follows; anything else is refused.
pub open spec fn port_from(args: Seq<Seq<char>>, i: int, port: u16) -> Result<u16, PortErrorView>
    decreases args.len() - i,
{
    if i < 0 || i >= args.len() {
        Ok(port)
    } else if args[i] == "-p"@ || args[i] == "--port"@ {
        if i + 1 < args.len() {
            match parse_unsigned(args[i + 1], 65535) {
                Some(p) => port_from(args, i + 2, p as u16),
                None => Err(PortErrorView::InvalidPort(args[i + 1])),
            }
        } else {
            Err(PortErrorView::MissingValue)
        }
    } else {
        Err(PortErrorView::UnknownOption(args[i], args[0]))
    }
}

/// The port that the command line `args` (the program's name first)
/// chooses; 3000 where it chooses none.
pub open spec fn chosen_port(args: Seq<Seq<char>>) -> Result<u16, PortErrorView> {
    port_from(args, 1, 3000)
}

/// Reads the port from the command line `args` (the program's name first).
pub fn parse_port(args: &Vec<String>) -> (r: Result<u16, PortError>)
    ensures
        match r {
            Ok(p) => chosen_port(views(args@)) == Ok::<u16, PortErrorView>(p),
            Err(e) => chosen_port(views(args@)) == Err::<u16, PortErrorView>(e@),
        },
{
    let ghost a = views(args@);
    let mut port: u16 = 3000;
    let mut i: usize = 1;
    while i < args.len()
        invariant
            1 <= i,
            a == views(args@),
            chosen_port(a) == port_from(a, i as int, port),
        decreases args.len() - i,
    {
        let arg = args[i].as_str();
        if str_eq(arg, "-p") || str_eq(arg, "--port") {
            if i + 1 < args.len() {
                match parse_unsigned_upto(args[i + 1].as_str(), 65535) {
                    Some(p) => {
                        port = p as u16;
                        i += 2;
                    },
                    None => {
                        return Err(PortError::InvalidPort(args[i + 1].clone()));
                    },
                }
            } else {
                return Err(PortError::MissingValue);
            }
        } else {
            return Err(PortError::UnknownOption { option: args[i].clone(), program: args[0].clone() });
        }
    }
    Ok(port)
}

/// The lines the server prints before it exits on a refused command line.
pub open spec fn error_lines(e: PortErrorView) -> Seq<Seq<char>> {
    match e {
        PortErrorView::InvalidPort(v) => seq!["Invalid port number: "@ + v],
        PortErrorView::MissingValue => seq!["Option -p requires a port number"@],
        PortErrorView::UnknownOption(o, p) => seq!["Unknown option: "@ + o, "Usage: "@ + p + " [-p <port>] [--port <port>]"@],
    }
}

impl PortError {
    /// The lines to print for this refusal.
    pub fn messages(&self) -> (r: Vec<String>)
        ensures
            views(r@) == error_lines(self@),
    {
        let mut r = Vec::new();
        match self {
            PortError::InvalidPort(v) => {
                let mut m = String::from_str("Invalid port number: ");
                m.append(v.as_str());
                r.push(m);
            },
            PortError::MissingValue => {
                r.push(String::from_str("Option -p requires a port number"));
            },
            PortError::UnknownOption { option, program } => {
                let mut m = String::from_str("Unknown option: ");
                m.append(option.as_str());
                r.push(m);
                let mut u = String::from_str("Usage: ");
                u.append(program.as_str());
                u.append(" [-p <port>] [--port <port>]");
                r.push(u);
            },
        }
        assert(views(r@) =~= error_lines(self@));
        r
    }
}

proof fn lemma_decimal_digits(n: nat)
    ensures
        crate::text::decimal(n).len() > 0,
        crate::text::all_digits(crate::text::decimal(n)),
        crate::text::digits_value(crate::text::decimal(n)) == n,
        crate::text::decimal(n)[0] != '+',
    decreases n,
{
    let d = crate::text::decimal(n);
    if n < 10 {
        assert(d.drop_last().len() == 0);
        assert(crate::text::digits_value(d.drop_last()) == 0);
    } else {
        lemma_decimal_digits(n / 10);
        let prev = crate::text::decimal(n / 10);
        assert(d.drop_last() =~= prev);
        assert(d[0] == prev[0]);
        assert forall|i: int| 0 <= i < d.len() implies crate::text::is_digit(#[trigger] d[i]) by {
            if i < prev.len() {
                assert(d[i] == prev[i]);
            }
        }
    }
}

proof fn lemma_port_from_extend(args: Seq<Seq<char>>, extra: Seq<Seq<char>>, i: int, port: u16)
    requires
        1 <= i <= args.len(),
        port_from(args, i, port) is Ok,
    ensures
        port_from(args + extra, i, port) == port_from(args + extra, args.len() as int, port_from(args, i, port)->Ok_0),
    decreases args.len() - i,
{
    let all = args + extra;
    if i < args.len() {
        assert(all[i] == args[i]);
        assert(all[0] == args[0]);
        if args[i] == "-p"@ || args[i] == "--port"@ {
            assert(all[i + 1] == args[i + 1]);
            let p = parse_unsigned(args[i + 1], 65535)->Some_0;
            lemma_port_from_extend(args, extra, i + 2, p as u16);
        }
    }
}

/// A port option added at the end of an accepted command line decides the
/// port: the last `-p <n>` wins.
pub proof fn law_last_port_option_wins(args: Seq<Seq<char>>, n: u16)
    requires
        args.len() >= 1,
        chosen_port(args) is Ok,
    ensures
        chosen_port(args + seq!["-p"@, crate::text::decimal(n as nat)]) == Ok::<u16, PortErrorView>(n),
{
    let extra = seq!["-p"@, crate::text::decimal(n as nat)];
    let all = args + extra;
    lemma_port_from_extend(args, extra, 1, 3000);
    lemma_decimal_digits(n as nat);
    let d = crate::text::decimal(n as nat);
    assert(crate::text::unsigned_digits(d) == d);
    assert(parse_unsigned(d, 65535) == Some(n as int));
    assert(all[args.len() as int] == "-p"@);
    assert(all[args.len() + 1int] == d);
    assert(port_from(all, args.len() + 2int, n) == Ok::<u16, PortErrorView>(n));
}

} // verus!
