use vstd::prelude::*;
use vstd::string::*;

use crate::options::{
    add_flag, add_required, contains, default_style, free_args, getopts_result, is_one_line,
    is_visible_ascii, match_args, names_row, occurrences, occurrences_respect, registered,
    render_usage, row_mentioned, texts, usage_entry, usage_of, valid_table, OptionRow,
    Occurrences,
};
use crate::port::{decimal_value, is_port_text, numeral_digits, parse_u16};
use crate::token::{hash_token, token_spec};

verus! {

/// The version reported by `-v` / `--version`.
pub const VERSION: &'static str = "0.1.0";

/// The program name used in the usage text before any arguments are seen.
pub const DEFAULT_PROGRAM: &'static str = "tuic-server";

/// A validated server configuration.
#[derive(Debug, Clone, Copy, PartialEq, Eq, Structural)]
pub struct Config {
    pub port: u16,
    pub token: u64,
}

/// Why the arguments did not yield a `Config`. Every variant but `Version`
/// carries the full usage text.
#[derive(Debug)]
pub enum ConfigError {
    /// The arguments do not fit the option table.
    Parse(getopts::Fail, String),
    /// Free arguments were given, joined with ", ".
    UnexpectedArgument(String, String),
    /// The port is not a number in 0..=65535.
    ParsePort(std::num::ParseIntError, String),
    /// The version was asked for.
    Version(&'static str),
    /// The usage text was asked for.
    Help(String),
}

/// What a structurally valid command line holds: the free arguments, the two
/// switches, and the raw values of the two required options.
pub struct ParseOutcome {
    pub free: Vec<String>,
    pub version: bool,
    pub help: bool,
    pub port: String,
    pub token: String,
}

/// The recognised options as (short name, long name, description, value
/// hint, required, takes a value).
pub open spec fn schema() -> Seq<OptionRow> {
    seq![
        ("p"@, "port"@, "Set the listening port(Required)"@, "SERVER_PORT"@, true, true),
        ("t"@, "token"@, "Set the TUIC token for the authentication(Required)"@, "TOKEN"@, true, true),
        ("v"@, "version"@, "Print the version"@, Seq::empty(), false, false),
        ("h"@, "help"@, "Print this help menu"@, Seq::empty(), false, false),
    ]
}

/// The first line of the usage text.
pub open spec fn usage_brief(program: Seq<char>) -> Seq<char> {
    "Usage: "@ + program + " [options]"@
}

/// The usage text for `program`.
pub open spec fn usage_text(program: Seq<char>) -> Seq<char> {
    usage_of(schema(), usage_brief(program))
}

/// A usage text for `program`: it opens with the invocation line, lists each
/// option as `-s, --long HINT` with its description, and names every long
/// option.
pub open spec fn describes_schema(usage: Seq<char>, program: Seq<char>) -> bool {
    let brief = usage_brief(program);
    &&& usage.len() >= brief.len()
    &&& usage.subrange(0, brief.len() as int) == brief
    &&& forall|i: int|
        0 <= i < schema().len() ==> contains(usage, usage_entry(#[trigger] schema()[i]))
            && contains(usage, schema()[i].2)
    &&& contains(usage, "--port"@)
    &&& contains(usage, "--token"@)
    &&& contains(usage, "--version"@)
    &&& contains(usage, "--help"@)
}

/// Items joined with ", ".
pub open spec fn joined(items: Seq<Seq<char>>) -> Seq<char>
    decreases items.len(),
{
    if items.len() == 0 {
        Seq::empty()
    } else if items.len() == 1 {
        items[0]
    } else {
        joined(items.drop_last()) + seq![',', ' '] + items.last()
    }
}

/// The decision taken on a structurally valid command line: free arguments
/// first, then a version request, then a help request, then the port value.
pub open spec fn decided(
    free: Seq<Seq<char>>,
    version: bool,
    help: bool,
    port: Seq<char>,
    token: Seq<char>,
    usage: Seq<char>,
    r: Result<Config, ConfigError>,
) -> bool {
    if free.len() > 0 {
        &&& r is Err
        &&& r->Err_0 is UnexpectedArgument
        &&& r->Err_0->UnexpectedArgument_0@ == joined(free)
        &&& r->Err_0->UnexpectedArgument_1@ == usage
    } else if version {
        &&& r is Err
        &&& r->Err_0 is Version
        &&& r->Err_0->Version_0@ == VERSION@
    } else if help {
        &&& r is Err
        &&& r->Err_0 is Help
        &&& r->Err_0->Help_0@ == usage
    } else if !is_port_text(port) {
        &&& r is Err
        &&& r->Err_0 is ParsePort
        &&& r->Err_0->ParsePort_1@ == usage
    } else {
        r == Ok::<Config, ConfigError>(
            Config { port: decimal_value(numeral_digits(port)) as u16, token: token_spec(token) },
        )
    }
}

/// The decision on a successful match, given as its occurrences and free
/// arguments: whether `-v` and `-h` occurred, and the first values given to
/// `-p` and `-t`.
pub open spec fn decided_on(
    matched: (Occurrences, Seq<Seq<char>>),
    usage: Seq<char>,
    r: Result<Config, ConfigError>,
) -> bool {
    let occ = matched.0;
    decided(
        matched.1,
        occ["v"@].len() > 0,
        occ["h"@].len() > 0,
        occ["p"@][0]->Some_0,
        occ["t"@][0]->Some_0,
        usage,
        r,
    )
}

/// Part of a contained text is contained too.
proof fn lemma_contains_part(hay: Seq<char>, text: Seq<char>, from: int, to: int)
    requires
        contains(hay, text),
        0 <= from <= to <= text.len(),
    ensures
        contains(hay, text.subrange(from, to)),
{
    let i = choose|i: int|
        0 <= i <= hay.len() - text.len() && #[trigger] hay.subrange(i, i + text.len()) == text;
    let part = text.subrange(from, to);
    assert(hay.subrange(i + from, i + from + part.len()) =~= part);
}

/// Each item occurs in the joined text.
proof fn lemma_joined_contains(items: Seq<Seq<char>>, k: int)
    requires
        0 <= k < items.len(),
    ensures
        contains(joined(items), items[k]),
    decreases items.len(),
{
    let j = joined(items);
    let n = items[k].len() as int;
    if items.len() == 1 {
        assert(j.subrange(0, n) =~= items[k]);
        assert(j.subrange(0, 0 + n) == items[k]);
    } else {
        let front = joined(items.drop_last());
        let start = front.len() + 2int;
        if k == items.len() - 1 {
            assert(j.subrange(start, start + n) =~= items[k]);
            assert(start <= j.len() - n);
        } else {
            lemma_joined_contains(items.drop_last(), k);
            let i = choose|i: int|
                0 <= i <= front.len() - n && #[trigger] front.subrange(i, i + n)
                    == items.drop_last()[k];
            assert(j.subrange(i, i + n) =~= front.subrange(i, i + n));
            assert(items.drop_last()[k] == items[k]);
            assert(j.subrange(i, i + n) == items[k]);
        }
    }
}

/// A command line with free arguments is refused, and the refusal names each
/// of them.
pub proof fn lemma_unexpected_names_each(
    free: Seq<Seq<char>>,
    version: bool,
    help: bool,
    port: Seq<char>,
    token: Seq<char>,
    usage: Seq<char>,
    r: Result<Config, ConfigError>,
)
    requires
        free.len() > 0,
        decided(free, version, help, port, token, usage, r),
    ensures
        r is Err,
        r->Err_0 is UnexpectedArgument,
        forall|k: int| 0 <= k < free.len() ==> contains(r->Err_0->UnexpectedArgument_0@, #[trigger] free[k]),
{
    assert forall|k: int| 0 <= k < free.len() implies contains(
        r->Err_0->UnexpectedArgument_0@,
        #[trigger] free[k],
    ) by {
        lemma_joined_contains(free, k);
    }
}

/// The token is repeatable: two successful decisions on the same secret give
/// the same token, whatever the other arguments.
pub proof fn lemma_token_repeatable(
    secret: Seq<char>,
    port1: Seq<char>,
    port2: Seq<char>,
    usage1: Seq<char>,
    usage2: Seq<char>,
    r1: Result<Config, ConfigError>,
    r2: Result<Config, ConfigError>,
)
    requires
        decided(Seq::empty(), false, false, port1, secret, usage1, r1),
        decided(Seq::empty(), false, false, port2, secret, usage2, r2),
        r1 is Ok,
        r2 is Ok,
    ensures
        r1->Ok_0.token == r2->Ok_0.token,
        r1->Ok_0.token == token_spec(secret),
{
}

/// A version request is never answered with a `Config`, whatever the port
/// and token say.
pub proof fn lemma_version_wins(
    port: Seq<char>,
    token: Seq<char>,
    help: bool,
    usage: Seq<char>,
    r: Result<Config, ConfigError>,
)
    requires
        decided(Seq::empty(), true, help, port, token, usage, r),
    ensures
        r is Err,
        r->Err_0 is Version,
{
}

/// A help request without a version request gives the usage text, whether or
/// not the port is valid.
pub proof fn lemma_help_wins(
    port: Seq<char>,
    token: Seq<char>,
    usage: Seq<char>,
    r: Result<Config, ConfigError>,
)
    requires
        decided(Seq::empty(), false, true, port, token, usage, r),
    ensures
        r is Err,
        r->Err_0 is Help,
        r->Err_0->Help_0@ == usage,
{
}

/// A command line with a valid port and any secret, and nothing else, gives
/// the port's value and the secret's token.
pub proof fn lemma_valid_arguments_succeed(
    port: Seq<char>,
    token: Seq<char>,
    usage: Seq<char>,
    r: Result<Config, ConfigError>,
)
    requires
        is_port_text(port),
        decided(Seq::empty(), false, false, port, token, usage, r),
    ensures
        r is Ok,
        r->Ok_0.port as nat == decimal_value(numeral_digits(port)),
        r->Ok_0.token == token_spec(token),
{
}

/// Joins the items with ", ".
fn join_args(items: &Vec<String>) -> (r: String)
    ensures
        r@ == joined(texts(items@)),
{
    let mut out = String::new();
    let mut i: usize = 0;
    while i < items.len()
        invariant
            i <= items@.len(),
            out@ == joined(texts(items@).take(i as int)),
        decreases items@.len() - i,
    {
        if i > 0 {
            out.append(", ");
        }
        out.append(items[i].as_str());
        proof {
            reveal_strlit(", ");
            let t = texts(items@);
            assert(t.take(i + 1).drop_last() =~= t.take(i as int));
        }
        i = i + 1;
    }
    proof {
        assert(texts(items@).take(i as int) =~= texts(items@));
    }
    out
}

/// Decides the result of a structurally valid command line, in the order of
/// `decided`: free arguments, version, help, then the port and token values.
pub fn evaluate(outcome: ParseOutcome, usage: String) -> (r: Result<Config, ConfigError>)
    ensures
        decided(
            texts(outcome.free@),
            outcome.version,
            outcome.help,
            outcome.port@,
            outcome.token@,
            usage@,
            r,
        ),
{
    if outcome.free.len() > 0 {
        return Err(ConfigError::UnexpectedArgument(join_args(&outcome.free), usage));
    }
    if outcome.version {
        return Err(ConfigError::Version(VERSION));
    }
    if outcome.help {
        return Err(ConfigError::Help(usage));
    }
    let port = match parse_u16(outcome.port.as_str()) {
        Ok(p) => p,
        Err(e) => return Err(ConfigError::ParsePort(e, usage)),
    };
    let token = hash_token(outcome.token.as_str());
    Ok(Config { port, token })
}

/// The recognised options are well formed, their names are printed as they
/// are, and each description fits on one line of the usage text.
proof fn lemma_schema_valid()
    ensures
        valid_table(schema()),
        forall|i: int|
            0 <= i < schema().len() ==> {
                &&& is_visible_ascii(#[trigger] schema()[i].1)
                &&& is_visible_ascii(schema()[i].0)
                &&& schema()[i].0.len() == 1
                &&& schema()[i].1.len() > 0
                &&& is_one_line(schema()[i].2)
            },
{
    reveal_strlit("p");
    reveal_strlit("port");
    reveal_strlit("t");
    reveal_strlit("token");
    reveal_strlit("v");
    reveal_strlit("version");
    reveal_strlit("h");
    reveal_strlit("help");
    reveal_strlit("Set the listening port(Required)");
    reveal_strlit("Set the TUIC token for the authentication(Required)");
    reveal_strlit("Print the version");
    reveal_strlit("Print this help menu");
    let rows = schema();
    assert forall|i: int, j: int, n: Seq<char>|
        0 <= i < rows.len() && 0 <= j < rows.len() && i != j && #[trigger] names_row(rows[i], n)
            implies !#[trigger] names_row(rows[j], n) by {
        if n.len() == 1 {
            assert(n[0] == rows[i].0[0]);
        } else {
            assert(n == rows[i].1);
            assert(n.len() >= 4);
            assert(n[0] == rows[i].1[0]);
        }
    }
    assert(is_one_line(rows[0].2));
    assert(is_one_line(rows[1].2));
    assert(is_one_line(rows[2].2));
    assert(is_one_line(rows[3].2));
}

/// Turns process arguments into a `Config`, against the fixed option table.
pub struct ConfigBuilder {
    opts: getopts::Options,
    program: Option<String>,
}

impl ConfigBuilder {
    /// The option table the builder matches against.
    pub closed spec fn table(&self) -> Seq<OptionRow> {
        registered(self.opts)
    }

    /// The builder holds exactly the recognised options, in getopts' default
    /// style.
    pub closed spec fn wf(&self) -> bool {
        registered(self.opts) == schema() && default_style(self.opts)
    }

    /// The program name shown in the usage text.
    pub closed spec fn program_name(&self) -> Seq<char> {
        match self.program {
            Some(p) => p@,
            None => DEFAULT_PROGRAM@,
        }
    }

    /// Registers `--port` and `--token` (required, with a value) and
    /// `--version` and `--help` (optional switches).
    pub fn new() -> (r: Self)
        ensures
            r.wf(),
            r.table() == schema(),
            r.program_name() == DEFAULT_PROGRAM@,
    {
        proof {
            reveal_strlit("p");
            reveal_strlit("port");
            reveal_strlit("t");
            reveal_strlit("token");
            reveal_strlit("v");
            reveal_strlit("version");
            reveal_strlit("h");
            reveal_strlit("help");
        }
        let mut opts = getopts::Options::new();
        add_required(&mut opts, "p", "port", "Set the listening port(Required)", "SERVER_PORT");
        add_required(
            &mut opts,
            "t",
            "token",
            "Set the TUIC token for the authentication(Required)",
            "TOKEN",
        );
        add_flag(&mut opts, "v", "version", "Print the version");
        add_flag(&mut opts, "h", "help", "Print this help menu");
        assert(registered(opts) =~= schema());
        ConfigBuilder { opts, program: None }
    }

    /// The usage text: an invocation line naming the program, then the
    /// option table.
    pub fn get_usage(&self) -> (r: String)
        requires
            self.wf(),
        ensures
            r@ == usage_text(self.program_name()),
            describes_schema(r@, self.program_name()),
    {
        let mut brief = "Usage: ".to_owned();
        match &self.program {
            Some(p) => brief.append(p.as_str()),
            None => brief.append(DEFAULT_PROGRAM),
        }
        brief.append(" [options]");
        proof {
            lemma_schema_valid();
        }
        let usage = render_usage(&self.opts, brief.as_str());
        proof {
            let rows = registered(self.opts);
            reveal_strlit("port");
            reveal_strlit("token");
            reveal_strlit("version");
            reveal_strlit("help");
            reveal_strlit("--port");
            reveal_strlit("--token");
            reveal_strlit("--version");
            reveal_strlit("--help");
            assert forall|i: int| 0 <= i < rows.len() implies contains(
                usage@,
                usage_entry(#[trigger] rows[i]),
            ) && contains(usage@, rows[i].2) by {
                assert(rows[i].0.len() == 1);
            }
            let names = seq!["--port"@, "--token"@, "--version"@, "--help"@];
            assert forall|i: int| 0 <= i < 4 implies contains(usage@, #[trigger] names[i]) by {
                let e = usage_entry(rows[i]);
                lemma_contains_part(usage@, e, 4, 6int + rows[i].1.len());
                assert(e.subrange(4, 6int + rows[i].1.len()) =~= names[i]);
            }
            assert(contains(usage@, names[0]));
            assert(contains(usage@, names[1]));
            assert(contains(usage@, names[2]));
            assert(contains(usage@, names[3]));
        }
        usage
    }

    /// Parses the process arguments (`args[0]` is the program name) into a
    /// `Config`. `Parse` comes exactly when getopts rejects the arguments
    /// after the program name; otherwise the outcome is decided from the
    /// match as `decided_on` says. Every usage text carried is the one that
    /// `get_usage` gives afterwards. A command line in which no argument that
    /// starts with a dash names `-p`/`--port`, or none names `-t`/`--token`,
    /// gives `Parse`.
    pub fn parse(&mut self, args: &[String]) -> (r: Result<Config, ConfigError>)
        requires
            old(self).wf(),
            args@.len() > 0,
        ensures
            final(self).wf(),
            final(self).table() == schema(),
            final(self).program_name() == args@[0]@,
            (r is Err && r->Err_0 is Parse) <==> getopts_result(
                schema(),
                texts(args@).drop_first(),
            ) is None,
            r is Err && r->Err_0 is Parse ==> r->Err_0->Parse_1@ == usage_text(args@[0]@),
            getopts_result(schema(), texts(args@).drop_first()) is Some ==> decided_on(
                getopts_result(schema(), texts(args@).drop_first())->Some_0,
                usage_text(args@[0]@),
                r,
            ),
            !row_mentioned(texts(args@).drop_first(), schema()[0]) || !row_mentioned(
                texts(args@).drop_first(),
                schema()[1],
            ) ==> r is Err && r->Err_0 is Parse,
    {
        self.program = Some(args[0].clone());
        let mut rest: Vec<String> = Vec::new();
        let mut i: usize = 1;
        while i < args.len()
            invariant
                1 <= i <= args@.len(),
                texts(rest@) =~= texts(args@).subrange(1, i as int),
            decreases args@.len() - i,
        {
            let arg = args[i].clone();
            let ghost before = rest@;
            rest.push(arg);
            proof {
                assert(rest@ == before.push(arg));
                assert(texts(rest@) =~= texts(before).push(arg@));
                assert(texts(rest@) =~= texts(args@).subrange(1, i + 1));
            }
            i = i + 1;
        }
        proof {
            lemma_schema_valid();
            assert(texts(rest@) =~= texts(args@).drop_first());
        }
        let matches = match match_args(&self.opts, &rest) {
            Ok(m) => m,
            Err(e) => return Err(ConfigError::Parse(e, self.get_usage())),
        };
        proof {
            reveal_strlit("p");
            reveal_strlit("t");
            reveal_strlit("v");
            reveal_strlit("h");
            let rows = schema();
            assert(names_row(rows[0], "p"@));
            assert(names_row(rows[1], "t"@));
            assert(names_row(rows[2], "v"@));
            assert(names_row(rows[3], "h"@));
            assert(registered(self.opts)[0].4 && registered(self.opts)[1].4);
        }
        let free = free_args(&matches);
        let version = matches.opt_present("v");
        let help = matches.opt_present("h");
        let port = matches.opt_str("p");
        let token = matches.opt_str("t");
        let usage = self.get_usage();
        let outcome = ParseOutcome {
            free,
            version,
            help,
            port: port.unwrap(),
            token: token.unwrap(),
        };
        evaluate(outcome, usage)
    }
}

} // verus!
