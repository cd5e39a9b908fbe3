//! The command-line front end.
//!
//! The launcher recognizes `-h`/`--help` and the repeatable
//! `--fuseopt <option>` flag, and takes the mount point as its first free
//! argument. Argument parsing itself is getopts's job and stands behind
//! trusted declarations below; the decision taken from the parse result —
//! usage text or mount, and with which tokenized options — is verified here.

use vstd::prelude::*;
use vstd::string::StringExecFns;

use crate::tokenizer::parse_fuse_args;
use crate::tokenizer::tokenize_list;

verus! {

/// One registered option definition: short name, long name, hint,
/// description, and whether the option takes an argument.
pub type OptDef = (Seq<char>, Seq<char>, Seq<char>, Seq<char>, bool);

/// getopts's option-set builder, used opaquely.
#[verifier::external_type_specification]
#[verifier::external_body]
pub struct ExOptions(getopts::Options);

/// getopts's parse result, used opaquely.
#[verifier::external_type_specification]
#[verifier::external_body]
pub struct ExMatches(getopts::Matches);

/// getopts's parse error, used opaquely.
#[verifier::external_type_specification]
#[verifier::external_body]
pub struct ExFail(getopts::Fail);

/// The option definitions registered in an option set so far, in
/// registration order.
pub uninterp spec fn opt_defs(o: getopts::Options) -> Seq<OptDef>;

/// Whether an option set still has the default parsing configuration that
/// `Options::new` establishes: free arguments float, long-only mode off.
pub uninterp spec fn opt_defaults(o: getopts::Options) -> bool;

/// The matched occurrences each recognized option name of a parse result maps
/// to: `None` for a bare flag occurrence, `Some(text)` for an occurrence that
/// carried a value.
pub uninterp spec fn match_vals(m: getopts::Matches) -> Map<Seq<char>, Seq<Option<Seq<char>>>>;

/// The free (positional) arguments of a parse result, in order.
pub uninterp spec fn match_free(m: getopts::Matches) -> Seq<Seq<char>>;

/// What `Options::parse` returns for a default-configured option set: `None`
/// when parsing fails, otherwise the per-name occurrences and the free
/// arguments. The outcome is a function of the registered definitions and the
/// argument strings alone.
pub uninterp spec fn parse_of(defs: Seq<OptDef>, args: Seq<Seq<char>>) -> Option<
    (Map<Seq<char>, Seq<Option<Seq<char>>>>, Seq<Seq<char>>),
>;

/// The text `Options::usage` renders for a default-configured option set: a
/// function of the registered definitions and the brief line alone.
pub uninterp spec fn usage_of(defs: Seq<OptDef>, brief: Seq<char>) -> Seq<char>;

/// A sequence of characters that is entirely ASCII.
pub open spec fn ascii_name(s: Seq<char>) -> bool {
    forall|i: int| 0 <= i < s.len() ==> (s[i] as u32) < 128
}

/// An option definition getopts accepts without panicking: ASCII names, a
/// short name of at most one character, a long name of none or several, and
/// at least one of the two present.
pub open spec fn valid_def(d: OptDef) -> bool {
    &&& ascii_name(d.0)
    &&& ascii_name(d.1)
    &&& d.0.len() <= 1
    &&& d.1.len() != 1
    &&& (d.0.len() == 1 || d.1.len() > 1)
}

/// Every definition of the list is acceptable to getopts.
pub open spec fn valid_defs(defs: Seq<OptDef>) -> bool {
    forall|k: int| 0 <= k < defs.len() ==> valid_def(#[trigger] defs[k])
}

/// Every registered name can be looked up in the matched occurrences.
pub open spec fn defs_in_dom(defs: Seq<OptDef>, vals: Map<Seq<char>, Seq<Option<Seq<char>>>>) -> bool {
    forall|k: int|
        0 <= k < defs.len() ==> {
            let d = #[trigger] defs[k];
            &&& (d.0.len() == 1 ==> vals.contains_key(d.0))
            &&& (d.1.len() > 1 ==> vals.contains_key(d.1))
        }
}

/// The texts of the occurrences that carried a value, in order.
pub open spec fn given_values(vals: Seq<Option<Seq<char>>>) -> Seq<Seq<char>>
    decreases vals.len(),
{
    if vals.len() == 0 {
        Seq::empty()
    } else {
        match vals[0] {
            Option::Some(v) => seq![v] + given_values(vals.skip(1)),
            Option::None => given_values(vals.skip(1)),
        }
    }
}

/// Relies on `getopts::Options::new`: a blank option set in the default
/// parsing configuration.
#[verifier::external_body]
fn options_new() -> (o: getopts::Options)
    ensures
        opt_defs(o) == Seq::<OptDef>::empty(),
        opt_defaults(o),
{
    getopts::Options::new()
}

/// Relies on `getopts::Options::optflag`: appends one argument-less option
/// definition with an empty hint and leaves the parsing configuration as it
/// was. It panics unless the short name is at most one character and the long
/// name none or several; the precondition mirrors that check (for ASCII names
/// the byte lengths it inspects equal these character counts).
#[verifier::external_body]
fn add_optflag(o: &mut getopts::Options, short: &str, long: &str, desc: &str)
    requires
        ascii_name(short@),
        ascii_name(long@),
        short@.len() <= 1,
        long@.len() != 1,
        short@.len() == 1 || long@.len() > 1,
    ensures
        opt_defs(*final(o)) == opt_defs(*old(o)).push(
            (short@, long@, Seq::<char>::empty(), desc@, false),
        ),
        opt_defaults(*final(o)) == opt_defaults(*old(o)),
{
    o.optflag(short, long, desc);
}

/// Relies on `getopts::Options::optmulti`: appends one repeatable,
/// argument-taking option definition and leaves the parsing configuration as
/// it was. Same name validation, and so the same precondition, as
/// `add_optflag`.
#[verifier::external_body]
fn add_optmulti(o: &mut getopts::Options, short: &str, long: &str, desc: &str, hint: &str)
    requires
        ascii_name(short@),
        ascii_name(long@),
        short@.len() <= 1,
        long@.len() != 1,
        short@.len() == 1 || long@.len() > 1,
    ensures
        opt_defs(*final(o)) == opt_defs(*old(o)).push((short@, long@, hint@, desc@, true)),
        opt_defaults(*final(o)) == opt_defaults(*old(o)),
{
    o.optmulti(short, long, desc, hint);
}

/// Relies on `getopts::Options::parse`: for a default-configured option set
/// with acceptable definitions the call returns without panicking, its
/// outcome is the function of the definitions and the argument strings named
/// `parse_of`, and on success every registered name can be looked up in the
/// matches (short names are found through the alias table, long names
/// directly).
#[verifier::external_body]
fn parse_args(opts: &getopts::Options, args: &Vec<String>) -> (r: Result<
    getopts::Matches,
    getopts::Fail,
>)
    requires
        opt_defaults(*opts),
        valid_defs(opt_defs(*opts)),
    ensures
        (r is Ok) == (parse_of(opt_defs(*opts), args.deep_view()) is Some),
        r matches Ok(m) ==> parse_of(opt_defs(*opts), args.deep_view()) == Some(
            (match_vals(m), match_free(m)),
        ) && defs_in_dom(opt_defs(*opts), match_vals(m)),
{
    opts.parse(args)
}

/// Relies on `getopts::Options::usage`: for a default-configured option set
/// with acceptable definitions the text is the function of the definitions
/// and the brief line named `usage_of`.
#[verifier::external_body]
fn options_usage(opts: &getopts::Options, brief: &str) -> (r: String)
    requires
        opt_defaults(*opts),
        valid_defs(opt_defs(*opts)),
    ensures
        r@ == usage_of(opt_defs(*opts), brief@),
{
    opts.usage(brief)
}

/// Relies on `getopts::Matches::opt_present`: true exactly when the named
/// option was matched at least once. It panics on a name that was never
/// defined, which the precondition rules out.
#[verifier::external_body]
fn opt_present(m: &getopts::Matches, name: &str) -> (r: bool)
    requires
        match_vals(*m).contains_key(name@),
    ensures
        r == (match_vals(*m)[name@].len() > 0),
{
    m.opt_present(name)
}

/// Relies on `getopts::Matches::opt_strs`: the values carried by the matched
/// occurrences of the named option, in order. It panics on a name that was
/// never defined, which the precondition rules out.
#[verifier::external_body]
fn opt_strs(m: &getopts::Matches, name: &str) -> (r: Vec<String>)
    requires
        match_vals(*m).contains_key(name@),
    ensures
        r.deep_view() == given_values(match_vals(*m)[name@]),
{
    m.opt_strs(name)
}

/// Relies on the public `free` field of `getopts::Matches`: the free
/// (positional) arguments, in order.
#[verifier::external_body]
fn matches_free(m: &getopts::Matches) -> (r: Vec<String>)
    ensures
        r.deep_view() == match_free(*m),
{
    m.free.clone()
}

/// Relies on `getopts::Fail`'s `Display` implementation for the parse
/// error's diagnostic text.
#[verifier::external_body]
fn fail_message(f: &getopts::Fail) -> String {
    format!("{}", f)
}

/// What the launcher should do for a given command line.
pub enum Invocation {
    /// Print the usage text and exit without mounting: help was asked for, or
    /// the mount point is missing.
    Usage,
    /// Mount: hand the filesystem handler, this mount point and these
    /// tokenized options to the mount facility.
    Mount { mountpoint: String, fuseargs: Vec<String> },
}

/// The mathematical shape of an `Invocation`.
#[verifier::ext_equal]
pub enum InvocationModel {
    Usage,
    Mount { mountpoint: Seq<char>, fuseargs: Seq<Seq<char>> },
}

impl View for Invocation {
    type V = InvocationModel;

    open spec fn view(&self) -> InvocationModel {
        match self {
            Invocation::Usage => InvocationModel::Usage,
            Invocation::Mount { mountpoint, fuseargs } => (InvocationModel::Mount {
                mountpoint: mountpoint@,
                fuseargs: fuseargs.deep_view(),
            }),
        }
    }
}

/// The launcher's decision: usage on a help request, usage when no mount
/// point was given, otherwise mount at the first free argument with the
/// tokenized options.
pub open spec fn invocation_of(
    help: bool,
    fuseopts: Seq<Seq<char>>,
    free: Seq<Seq<char>>,
) -> InvocationModel {
    if help {
        InvocationModel::Usage
    } else if free.len() == 0 {
        InvocationModel::Usage
    } else {
        InvocationModel::Mount { mountpoint: free[0], fuseargs: tokenize_list(fuseopts) }
    }
}

/// Decide what the launcher does, from the parsed pieces of the command
/// line: whether help was requested, the raw `--fuseopt` strings, and the
/// free arguments.
pub fn decide(help: bool, fuseopts: &Vec<String>, free: &Vec<String>) -> (inv: Invocation)
    ensures
        inv@ == invocation_of(help, fuseopts.deep_view(), free.deep_view()),
{
    if help {
        Invocation::Usage
    } else if free.len() == 0 {
        Invocation::Usage
    } else {
        let mountpoint = free[0].clone();
        let fuseargs = parse_fuse_args(fuseopts);
        proof {
            assert(free.deep_view()[0] == free@[0]@);
        }
        Invocation::Mount { mountpoint, fuseargs }
    }
}

/// The launcher's recognized options: `-h`/`--help`, and the repeatable
/// `--fuseopt <option>`.
pub open spec fn cli_defs() -> Seq<OptDef> {
    seq![
        ("h"@, "help"@, Seq::<char>::empty(), "print this help menu"@, false),
        (
            Seq::<char>::empty(),
            "fuseopt"@,
            "option"@,
            "one option/'option value' pair to pass to fuse implementation"@,
            true,
        ),
    ]
}

/// Build the launcher's option set.
fn build_options() -> (o: getopts::Options)
    ensures
        opt_defs(o) == cli_defs(),
        opt_defaults(o),
        valid_defs(cli_defs()),
{
    proof {
        reveal_strlit("h");
        reveal_strlit("help");
        reveal_strlit("");
        reveal_strlit("fuseopt");
    }
    let mut o = options_new();
    add_optflag(&mut o, "h", "help", "print this help menu");
    add_optmulti(
        &mut o,
        "",
        "fuseopt",
        "one option/'option value' pair to pass to fuse implementation",
        "option",
    );
    proof {
        assert(""@ == Seq::<char>::empty());
        assert(opt_defs(o)[0] == cli_defs()[0]);
        assert(opt_defs(o)[1] == cli_defs()[1]);
        assert(opt_defs(o) =~= cli_defs());
        assert(valid_def(cli_defs()[0]));
        assert(valid_def(cli_defs()[1]));
    }
    o
}

/// The launcher's outcome for the user arguments: `None` when argument
/// parsing fails, otherwise the decision taken from the parse result.
pub open spec fn cli_outcome(args: Seq<Seq<char>>) -> Option<InvocationModel> {
    match parse_of(cli_defs(), args) {
        Option::None => Option::None,
        Option::Some(p) => Option::Some(
            invocation_of(p.0["h"@].len() > 0, given_values(p.0["fuseopt"@]), p.1),
        ),
    }
}

/// Parse the user arguments — everything after the program name — and decide
/// what the launcher does. `Err` carries the parse error's diagnostic text;
/// `Ok` carries the decision.
pub fn plan_invocation(user_args: &Vec<String>) -> (r: Result<Invocation, String>)
    ensures
        (r is Err) == (cli_outcome(user_args.deep_view()) is None),
        r matches Ok(inv) ==> cli_outcome(user_args.deep_view()) == Some(inv@),
{
    let opts = build_options();
    match parse_args(&opts, user_args) {
        Result::Err(f) => Result::Err(fail_message(&f)),
        Result::Ok(m) => {
            proof {
                reveal_strlit("h");
                reveal_strlit("fuseopt");
            }
            let help = opt_present(&m, "h");
            let fuseopts = opt_strs(&m, "fuseopt");
            let free = matches_free(&m);
            Result::Ok(decide(help, &fuseopts, &free))
        },
    }
}

/// The brief line of the usage text.
pub open spec fn brief_of(program: Seq<char>) -> Seq<char> {
    "Usage: "@ + program + " [options] <mountpount>"@
}

/// The usage text: a brief line naming the program, then the option summary
/// getopts renders for the launcher's option set.
pub fn usage(program: &str) -> (r: String)
    ensures
        r@ == usage_of(cli_defs(), brief_of(program@)),
{
    let opts = build_options();
    let mut brief = String::from_str("Usage: ");
    brief.append(program);
    brief.append(" [options] <mountpount>");
    options_usage(&opts, brief.as_str())
}

} // verus!
