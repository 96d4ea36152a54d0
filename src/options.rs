use vstd::prelude::*;

verus! {

#[verifier::external_type_specification]
#[verifier::external_body]
pub struct ExOptions(getopts::Options);

#[verifier::external_type_specification]
#[verifier::external_body]
pub struct ExMatches(getopts::Matches);

#[verifier::external_type_specification]
#[verifier::external_body]
pub struct ExFail(getopts::Fail);

/// One registered option: (short name, long name, description, value hint,
/// required, takes a value).
pub type OptionRow = (Seq<char>, Seq<char>, Seq<char>, Seq<char>, bool, bool);

/// What each option name recorded in a match: one entry per occurrence, with
/// the value it carried, if any.
pub type Occurrences = Map<Seq<char>, Seq<Option<Seq<char>>>>;

/// The options registered in a `getopts::Options`, in order of registration.
pub uninterp spec fn registered(o: getopts::Options) -> Seq<OptionRow>;

/// Whether a `getopts::Options` keeps its default style: long options with
/// two dashes, and free arguments allowed anywhere.
pub uninterp spec fn default_style(o: getopts::Options) -> bool;

/// What a successful match recorded for each defined option name (short or
/// long).
pub uninterp spec fn occurrences(m: getopts::Matches) -> Occurrences;

/// The free (positional) arguments of a successful match, in order.
pub uninterp spec fn free_of(m: getopts::Matches) -> Seq<Seq<char>>;

/// What getopts makes of `args` against a table in the default style: `None`
/// when it rejects them, else the occurrences and the free arguments.
pub uninterp spec fn getopts_result(table: Seq<OptionRow>, args: Seq<Seq<char>>) -> Option<
    (Occurrences, Seq<Seq<char>>),
>;

/// The usage text getopts renders for a table in the default style, after
/// the line `brief`.
pub uninterp spec fn usage_of(table: Seq<OptionRow>, brief: Seq<char>) -> Seq<char>;

/// The text of each string.
pub open spec fn texts(v: Seq<String>) -> Seq<Seq<char>> {
    v.map_values(|s: String| s@)
}

/// Whether `hay` holds `needle` as a contiguous run.
pub open spec fn contains(hay: Seq<char>, needle: Seq<char>) -> bool {
    exists|i: int| 0 <= i <= hay.len() - needle.len() && #[trigger] hay.subrange(i, i + needle.len()) == needle
}

/// A short name getopts accepts: empty or one ASCII character.
pub open spec fn valid_short(s: Seq<char>) -> bool {
    s.len() == 0 || (s.len() == 1 && (s[0] as u32) < 128)
}

/// A long name getopts accepts: empty or at least two characters.
pub open spec fn valid_long(s: Seq<char>) -> bool {
    s.len() == 0 || s.len() >= 2
}

/// Text made only of visible ASCII characters, each one column wide.
pub open spec fn is_visible_ascii(s: Seq<char>) -> bool {
    forall|i: int| 0 <= i < s.len() ==> '!' <= #[trigger] s[i] && s[i] <= '~'
}

/// Words of visible ASCII separated by single spaces, short enough to be
/// printed on one line of a usage table.
pub open spec fn is_one_line(s: Seq<char>) -> bool {
    &&& 0 < s.len() <= 54
    &&& forall|i: int| 0 <= i < s.len() ==> ' ' <= #[trigger] s[i] && s[i] <= '~'
    &&& s[0] != ' '
    &&& s.last() != ' '
    &&& forall|i: int| 0 <= i < s.len() - 1 && #[trigger] s[i] == ' ' ==> s[i + 1] != ' '
}

/// How a usage table lists an option with a one-character short name and a
/// long name: `-s, --long ` followed by the hint if it takes a value.
pub open spec fn usage_entry(row: OptionRow) -> Seq<char> {
    seq!['-'] + row.0 + seq![',', ' ', '-', '-'] + row.1 + seq![' '] + if row.5 {
        row.3
    } else {
        Seq::empty()
    }
}

/// Whether some argument that starts with a dash holds `name`.
pub open spec fn dash_arg_holds(args: Seq<Seq<char>>, name: Seq<char>) -> bool {
    exists|k: int|
        0 <= k < args.len() && args[k].len() > 1 && args[k][0] == '-' && #[trigger] contains(
            args[k],
            name,
        )
}

/// Whether some argument that starts with a dash holds one of the row's names.
pub open spec fn row_mentioned(args: Seq<Seq<char>>, row: OptionRow) -> bool {
    (row.0.len() > 0 && dash_arg_holds(args, row.0)) || (row.1.len() > 0 && dash_arg_holds(
        args,
        row.1,
    ))
}

/// A name under which an option row can be looked up.
pub open spec fn names_row(row: OptionRow, name: Seq<char>) -> bool {
    name.len() > 0 && (name == row.0 || name == row.1)
}

/// A table getopts can parse with: every row has valid names, at least one of
/// them, and no name is shared by two rows.
pub open spec fn valid_table(rows: Seq<OptionRow>) -> bool {
    &&& forall|i: int|
        0 <= i < rows.len() ==> {
            &&& valid_short(#[trigger] rows[i].0)
            &&& valid_long(rows[i].1)
            &&& rows[i].0.len() + rows[i].1.len() > 0
        }
    &&& forall|i: int, j: int, n: Seq<char>|
        0 <= i < rows.len() && 0 <= j < rows.len() && i != j && #[trigger] names_row(rows[i], n)
            ==> !#[trigger] names_row(rows[j], n)
}

/// What getopts guarantees of the occurrences of a successful match: each
/// name of each row can be looked up, a required row occurs, and a row that
/// takes a value carries one at each occurrence.
pub open spec fn occurrences_respect(occ: Occurrences, rows: Seq<OptionRow>) -> bool {
    forall|i: int, n: Seq<char>|
        0 <= i < rows.len() && #[trigger] names_row(rows[i], n) ==> {
            let o = occ[n];
            &&& occ.contains_key(n)
            &&& (rows[i].4 ==> o.len() > 0)
            &&& (rows[i].5 ==> forall|k: int| 0 <= k < o.len() ==> #[trigger] o[k] is Some)
        }
}

/// Relies on `getopts::Options::new`: an empty table in the default style.
pub assume_specification[ getopts::Options::new ]() -> (r: getopts::Options)
    ensures
        registered(r) == Seq::<OptionRow>::empty(),
        default_style(r),
;

/// Relies on `getopts::Options::reqopt`: appends a required option that takes
/// a value; it panics on names that `valid_short` / `valid_long` reject.
#[verifier::external_body]
pub(crate) fn add_required(o: &mut getopts::Options, short: &str, long: &str, desc: &str, hint: &str)
    requires
        valid_short(short@),
        valid_long(long@),
    ensures
        registered(*final(o)) == registered(*old(o)).push((short@, long@, desc@, hint@, true, true)),
        default_style(*final(o)) == default_style(*old(o)),
{
    o.reqopt(short, long, desc, hint);
}

/// Relies on `getopts::Options::optflag`: appends an optional option that
/// takes no value, with an empty hint; it panics on names that
/// `valid_short` / `valid_long` reject.
#[verifier::external_body]
pub(crate) fn add_flag(o: &mut getopts::Options, short: &str, long: &str, desc: &str)
    requires
        valid_short(short@),
        valid_long(long@),
    ensures
        registered(*final(o)) == registered(*old(o)).push(
            (short@, long@, desc@, Seq::empty(), false, false),
        ),
        default_style(*final(o)) == default_style(*old(o)),
{
    o.optflag(short, long, desc);
}

/// Relies on `getopts::Options::usage`: the text depends on the table and
/// `brief` alone; it starts with `brief`, and in the default style lists
/// each option with visible one-character short and long names as
/// `usage_entry` says, and each one-line description as it is.
#[verifier::external_body]
pub(crate) fn render_usage(o: &getopts::Options, brief: &str) -> (r: String)
    requires
        valid_table(registered(*o)),
    ensures
        default_style(*o) ==> r@ == usage_of(registered(*o), brief@),
        r@.len() >= brief@.len(),
        r@.subrange(0, brief@.len() as int) == brief@,
        default_style(*o) ==> forall|i: int|
            0 <= i < registered(*o).len() && #[trigger] registered(*o)[i].0.len() == 1
                && is_visible_ascii(registered(*o)[i].0) && registered(*o)[i].1.len() > 0
                && is_visible_ascii(registered(*o)[i].1) ==> contains(
                r@,
                usage_entry(registered(*o)[i]),
            ),
        forall|i: int|
            0 <= i < registered(*o).len() && is_one_line(#[trigger] registered(*o)[i].2) ==> contains(
                r@,
                registered(*o)[i].2,
            ),
{
    o.usage(brief)
}

/// Relies on `getopts::Options::parse`: in the default style the outcome is
/// `getopts_result` of the table and the arguments; a successful match
/// respects the table (see `occurrences_respect`), and since an option only
/// occurs through an argument that starts with a dash and names it, each
/// required option is named by such an argument.
#[verifier::external_body]
pub(crate) fn match_args(o: &getopts::Options, args: &Vec<String>) -> (r: Result<getopts::Matches, getopts::Fail>)
    requires
        valid_table(registered(*o)),
    ensures
        default_style(*o) ==> (r is Ok <==> getopts_result(registered(*o), texts(args@)) is Some),
        default_style(*o) && r is Ok ==> occurrences(r->Ok_0) == getopts_result(
            registered(*o),
            texts(args@),
        )->Some_0.0,
        default_style(*o) && r is Ok ==> free_of(r->Ok_0) == getopts_result(
            registered(*o),
            texts(args@),
        )->Some_0.1,
        r is Ok ==> occurrences_respect(occurrences(r->Ok_0), registered(*o)),
        r is Ok ==> forall|i: int|
            0 <= i < registered(*o).len() && #[trigger] registered(*o)[i].4 ==> row_mentioned(
                texts(args@),
                registered(*o)[i],
            ),
{
    o.parse(args)
}

/// Relies on `getopts::Matches::opt_present`: whether the option occurred.
pub assume_specification[ getopts::Matches::opt_present ](m: &getopts::Matches, name: &str) -> (r: bool)
    requires
        occurrences(*m).contains_key(name@),
    ensures
        r == (occurrences(*m)[name@].len() > 0),
;

/// Relies on `getopts::Matches::opt_str`: the value of the first occurrence,
/// if it carried one.
pub assume_specification[ getopts::Matches::opt_str ](m: &getopts::Matches, name: &str) -> (r: Option<String>)
    requires
        occurrences(*m).contains_key(name@),
    ensures
        r is Some <==> (occurrences(*m)[name@].len() > 0 && occurrences(*m)[name@][0] is Some),
        r is Some ==> r->Some_0@ == occurrences(*m)[name@][0]->Some_0,
;

/// Relies on the public field `getopts::Matches::free`: the free arguments.
#[verifier::external_body]
pub(crate) fn free_args(m: &getopts::Matches) -> (r: Vec<String>)
    ensures
        texts(r@) == free_of(*m),
{
    m.free.clone()
}

} // verus!
