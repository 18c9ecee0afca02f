//! The command line.

use crate::linking::{
    LinkOptions, LinkOptionsView, clone_link_options, link_options_view, unfold_link_options,
};
use crate::text::{
    cat2, cat3, chars_of, clone_string_list, opt_view, pattern_at, same_text, stands_at,
    string_list_view, text_of,
};
use vstd::prelude::*;

verus! {

/// What a command line says.
#[derive(Debug, PartialEq, Eq)]
pub struct CliArgs {
    /// The backend asked for.
    pub backend: Option<String>,
    pub args: Vec<String>,
    pub link_options: LinkOptions,
}

/// What a [`CliArgs`] holds.
pub struct CliArgsView {
    pub backend: Option<Seq<char>>,
    pub args: Seq<Seq<char>>,
    pub link_options: LinkOptionsView,
}

pub open spec fn cli_args_view(x: CliArgs) -> CliArgsView
    decreases x,
{
    CliArgsView {
        backend: (match x.backend { Some(y) => Some(y@), None => None }),
        args: string_list_view(x.args@),
        link_options: link_options_view(x.link_options),
    }
}

impl View for CliArgs {
    type V = CliArgsView;

    open spec fn view(&self) -> CliArgsView {
        cli_args_view(*self)
    }
}

pub fn clone_cli_args(x: &CliArgs) -> (r: CliArgs)
    ensures
        cli_args_view(r) == cli_args_view(*x),
    decreases x,
{
    let r = CliArgs {
        backend: (match (&x.backend) { Some(y) => Some(y.clone()), None => None }),
        args: clone_string_list((&x.args)),
        link_options: clone_link_options((&x.link_options)),
    };
    proof {
        unfold_cli_args(*x);
        unfold_cli_args(r);
    }
    r
}

impl Clone for CliArgs {
    fn clone(&self) -> (r: Self)
        ensures
            r@ == self@,
    {
        clone_cli_args(self)
    }
}

pub proof fn unfold_cli_args(x: CliArgs)
    ensures
        cli_args_view(x) == (CliArgsView { backend: (match x.backend { Some(y) => Some(y@), None => None }), args: string_list_view(x.args@), link_options: link_options_view(x.link_options) }),
{
        assert(cli_args_view(x).args =~= string_list_view(x.args@));
}

/// What follows a prefix of a text.
#[verifier::opaque]
pub open spec fn after(text: Seq<char>, prefix: Seq<char>) -> Option<Seq<char>> {
    if stands_at(text, prefix, 0) {
        Some(text.skip(prefix.len() as int))
    } else {
        None
    }
}

/// See [`after`].
pub fn after_prefix(text: &String, prefix: &str) -> (r: Option<String>)
    ensures
        opt_view(r) == after(text@, prefix@),
{
    proof {
        reveal(after);
    }
    let chars = chars_of(text.as_str());
    let mark = chars_of(prefix);
    if pattern_at(&chars, &mark, 0) {
        Some(text_of(&chars, mark.len(), chars.len()))
    } else {
        None
    }
}


/// The search roots with one more, which an option gives.
#[verifier::opaque]
pub open spec fn and_root(
    option: Seq<char>,
    path: Seq<char>,
    roots: Seq<Seq<char>>,
) -> Result<Seq<Seq<char>>, Seq<char>> {
    if path == ""@ {
        Err(option + " requires a non-empty path"@)
    } else {
        let out = roots;
        let out = out.push(path);
        Ok(out)
    }
}

/// See [`and_root`].
pub fn with_root(
    option: &String,
    path: &String,
    roots: Vec<String>,
) -> (r: Result<Vec<String>, String>)
    ensures
        (
            match r { Ok(v) => Ok(string_list_view(v@)), Err(v) => Err(v@) }
        ) == and_root(option@, path@, string_list_view(roots@)),
{
    proof { reveal(and_root); }
    if same_text(path.as_str(), "") {
        Err(cat2(option.as_str(), " requires a non-empty path"))
    } else {
        let mut out = roots;
        let item = path.clone();
        let ghost before = string_list_view(out@);
        let ghost added = item@;
        out.push(item);
        assert(string_list_view(out@) =~= before.push(added));
        Ok(out)
    }
}

#[verifier::opaque]
pub open spec fn and_arg(args: Seq<Seq<char>>, arg: Seq<char>) -> Seq<Seq<char>> {
    let out = args;
    let out = out.push(arg);
    out
}

/// See [`and_arg`].
pub fn with_arg(args: Vec<String>, arg: &String) -> (r: Vec<String>)
    ensures
        string_list_view(r@) == and_arg(string_list_view(args@), arg@),
{
    proof { reveal(and_arg); }
    let mut out = args;
    let item = arg.clone();
    let ghost before = string_list_view(out@);
    let ghost added = item@;
    out.push(item);
    assert(string_list_view(out@) =~= before.push(added));
    out
}

/// An option that stands by itself and takes the argument behind it.
#[verifier::opaque]
pub open spec fn option_separate(arg: Seq<char>) -> bool {
    arg == "--backend"@ || arg == "--module-path"@ || arg == "-I"@ || arg == "--stdlib"@
}

/// See [`option_separate`].
pub fn separate_option(arg: &String) -> (r: bool)
    ensures
        r == option_separate(arg@),
{
    proof { reveal(option_separate); }
    same_text(arg.as_str(), "--backend") || same_text(
        arg.as_str(),
        "--module-path",
    ) || same_text(arg.as_str(), "-I") || same_text(arg.as_str(), "--stdlib")
}

/// What is missing behind such an option.
#[verifier::opaque]
pub open spec fn value_missing(arg: Seq<char>) -> Seq<char> {
    if arg == "--backend"@ {
        "--backend requires a name"@
    } else {
        arg + " requires a path"@
    }
}

/// See [`value_missing`].
pub fn missing_value(arg: &String) -> (r: String)
    ensures
        r@ == value_missing(arg@),
{
    proof { reveal(value_missing); }
    if same_text(arg.as_str(), "--backend") {
        "--backend requires a name".to_owned()
    } else {
        cat2(arg.as_str(), " requires a path")
    }
}

/// An argument that is no option.
#[verifier::opaque]
pub open spec fn plain_argument(arg: Seq<char>) -> bool {
    !(after(arg, "-"@) is Some) || arg == "-"@ || arg == "-h"@ || arg == "--help"@
}

/// See [`plain_argument`].
pub fn is_plain(arg: &String) -> (r: bool)
    ensures
        r == plain_argument(arg@),
{
    proof { reveal(plain_argument); }
    !after_prefix(arg, "-").is_some() || same_text(arg.as_str(), "-") || same_text(arg.as_str(), "-h") || same_text(
        arg.as_str(),
        "--help",
    )
}

/// What a command line says so far, with the search roots in `link_options`.
#[verifier::opaque]
pub open spec fn and_option(
    cli: CliArgsView,
    option: Seq<char>,
    value: Seq<char>,
) -> Result<CliArgsView, Seq<char>> {
    match and_root(option, value, cli.link_options.search_roots) {
        Ok(out) => {
            let roots = out;
            Ok(
                CliArgsView {
                    backend: cli.backend,
                    args: cli.args,
                    link_options: LinkOptionsView { search_roots: roots },
                }
            )
        },
        Err(error) => Err(error),
    }
}

/// See [`and_option`].
pub fn with_option(
    cli: CliArgs,
    option: &String,
    value: &String,
) -> (r: Result<CliArgs, String>)
    ensures
        (match r { Ok(v) => Ok(v@), Err(v) => Err(v@) }) == and_option(cli@, option@, value@),
{
    proof { reveal(and_option); }
    let roots = match with_root(option, value, cli.link_options.search_roots) {
        Ok(done) => done,
        Err(error) => {
            return Err(error);
        },
    };
    let options = LinkOptions { search_roots: roots };
    proof { unfold_link_options(options); }
    let args = CliArgs { backend: cli.backend, args: cli.args, link_options: options };
    proof { unfold_cli_args(args); }
    Ok(args)
}

#[verifier::opaque]
pub open spec fn and_backend(cli: CliArgsView, name: Seq<char>) -> CliArgsView {
    CliArgsView { backend: Some(name), args: cli.args, link_options: cli.link_options }
}

/// See [`and_backend`].
pub fn with_backend(cli: CliArgs, name: &String) -> (r: CliArgs)
    ensures
        r@ == and_backend(cli@, name@),
{
    proof { reveal(and_backend); }
    let args = CliArgs {
        backend: Some(name.clone()),
        args: cli.args,
        link_options: cli.link_options,
    };
    proof { unfold_cli_args(args); }
    args
}

#[verifier::opaque]
pub open spec fn and_plain(cli: CliArgsView, arg: Seq<char>) -> Result<CliArgsView, Seq<char>> {
    if plain_argument(arg) {
        Ok(
            CliArgsView {
                backend: cli.backend,
                args: and_arg(cli.args, arg),
                link_options: cli.link_options,
            }
        )
    } else {
        Err("unknown option '"@ + arg + "'"@)
    }
}

/// See [`and_plain`].
pub fn with_plain(cli: CliArgs, arg: &String) -> (r: Result<CliArgs, String>)
    ensures
        (match r { Ok(v) => Ok(v@), Err(v) => Err(v@) }) == and_plain(cli@, arg@),
{
    proof { reveal(and_plain); }
    if is_plain(arg) {
        let args = CliArgs {
            backend: cli.backend,
            args: with_arg(cli.args, arg),
            link_options: cli.link_options,
        };
        proof { unfold_cli_args(args); }
        Ok(args)
    } else {
        Err(cat3("unknown option '", arg.as_str(), "'"))
    }
}

/// An option with its value behind `=`, or an argument.
#[verifier::opaque]
pub open spec fn and_word(cli: CliArgsView, arg: Seq<char>) -> Result<CliArgsView, Seq<char>> {
    match after(arg, "--backend="@) {
        Some(name) => Ok(and_backend(cli, name)),
        None => match after(arg, "--module-path="@) {
            Some(path) => and_option(cli, "--module-path"@, path),
            None => match after(arg, "--stdlib="@) {
                Some(path) => and_option(cli, "--stdlib"@, path),
                None => and_plain(cli, arg),
            },
        },
    }
}

/// See [`and_word`].
pub fn with_word(cli: CliArgs, arg: &String) -> (r: Result<CliArgs, String>)
    ensures
        (match r { Ok(v) => Ok(v@), Err(v) => Err(v@) }) == and_word(cli@, arg@),
{
    proof { reveal(and_word); }
    match after_prefix(arg, "--backend=") {
        Some(name) => Ok(with_backend(cli, &name)),
        None => {
            match after_prefix(arg, "--module-path=") {
                Some(path) => with_option(cli, &"--module-path".to_owned(), &path),
                None => {
                    match after_prefix(arg, "--stdlib=") {
                        Some(path) => with_option(cli, &"--stdlib".to_owned(), &path),
                        None => with_plain(cli, arg),
                    }
                },
            }
        },
    }
}

#[verifier::opaque]
pub open spec fn and_separate(
    cli: CliArgsView,
    option: Seq<char>,
    value: Seq<char>,
) -> Result<CliArgsView, Seq<char>> {
    if option == "--backend"@ {
        Ok(and_backend(cli, value))
    } else {
        and_option(cli, option, value)
    }
}

/// See [`and_separate`].
pub fn with_separate(
    cli: CliArgs,
    option: &String,
    value: &String,
) -> (r: Result<CliArgs, String>)
    ensures
        (match r { Ok(v) => Ok(v@), Err(v) => Err(v@) }) == and_separate(cli@, option@, value@),
{
    proof { reveal(and_separate); }
    if same_text(option.as_str(), "--backend") {
        Ok(with_backend(cli, value))
    } else {
        with_option(cli, option, value)
    }
}

/// One word of a command line: the value that an option waits for, an option that
/// waits for a value, or anything else.
#[verifier::opaque]
pub open spec fn word_parsed(
    cli: CliArgsView,
    waiting: Option<Seq<char>>,
    word: Seq<char>,
) -> Result<(CliArgsView, Option<Seq<char>>), Seq<char>> {
    match waiting {
        Some(option) => match and_separate(cli, option, word) {
            Ok(out) => {
                let cli = out;
                Ok((cli, None))
            },
            Err(error) => Err(error),
        },
        None => if option_separate(word) {
            Ok((cli, Some(word)))
        } else {
            match and_word(cli, word) {
                Ok(out) => {
                    let cli = out;
                    Ok((cli, None))
                },
                Err(error) => Err(error),
            }
        },
    }
}

/// See [`word_parsed`].
pub fn parse_word(
    cli: CliArgs,
    waiting: Option<String>,
    word: &String,
) -> (r: Result<(CliArgs, Option<String>), String>)
    ensures
        (
            match r { Ok(v) => Ok((v.0@, opt_view(v.1))), Err(v) => Err(v@) }
        ) == word_parsed(cli@, opt_view(waiting), word@),
{
    proof { reveal(word_parsed); }
    match waiting {
        Some(option) => {
            let cli = match with_separate(cli, &option, word) {
                Ok(done) => done,
                Err(error) => {
                    return Err(error);
                },
            };
            Ok((cli, None))
        },
        None => {
            if separate_option(word) {
                Ok((cli, Some(word.clone())))
            } else {
                let cli = match with_word(cli, word) {
                    Ok(done) => done,
                    Err(error) => {
                        return Err(error);
                    },
                };
                Ok((cli, None))
            }
        },
    }
}

pub open spec fn words_parsed(
    raw: Seq<Seq<char>>,
    i: nat,
    cli: CliArgsView,
    waiting: Option<Seq<char>>,
) -> Result<(CliArgsView, Option<Seq<char>>), Seq<char>>
    decreases raw, (raw.len() - i) as nat,
{
    if i >= raw.len() {
        Ok((cli, waiting))
    } else {
        let word = raw[i as int];
        match word_parsed(cli, waiting, word) {
            Ok(out) => {
                let (next, rest) = out;
                let cli = next;
                let waiting = rest;
                words_parsed(raw, i + 1, cli, waiting)
            },
            Err(error) => Err(error),
        }
    }
}

/// See [`words_parsed`].
pub fn parse_words(
    raw: &Vec<String>,
    start: CliArgs,
) -> (r: Result<(CliArgs, Option<String>), String>)
    ensures
        (
            match r { Ok(v) => Ok((v.0@, opt_view(v.1))), Err(v) => Err(v@) }
        ) == words_parsed(string_list_view(raw@), 0, start@, None),
    decreases raw@, 0nat,
{
    let mut cli: CliArgs = start;
    let mut waiting: Option<String> = None;
    let ghost goal = words_parsed(string_list_view(raw@), 0, start@, None);
    let mut i: usize = 0;
    while i < raw.len()
        invariant
            i <= raw@.len(),
            string_list_view(raw@).len() == raw@.len(),
            words_parsed(string_list_view(raw@), i as nat, cli@, opt_view(waiting)) == goal,
            goal == words_parsed(string_list_view(raw@), 0, start@, None),
        decreases raw@.len() - i,
    {
        let word = &raw[i];
        assert(string_list_view(raw@)[i as int] == word@);
        let (next, rest) = match parse_word(cli, waiting, word) {
            Ok(done) => done,
            Err(error) => {
                return Err(error);
            },
        };
        cli = next;
        waiting = rest;
        i = i + 1;
    }
    Ok((cli, waiting))
}

pub open spec fn and_roots(more: Seq<Seq<char>>, i: nat, out: Seq<Seq<char>>) -> Seq<Seq<char>>
    decreases more, (more.len() - i) as nat,
{
    if i >= more.len() {
        out
    } else {
        let root = more[i as int];
        let out = out.push(root);
        and_roots(more, i + 1, out)
    }
}

/// See [`and_roots`].
pub fn with_roots(more: &Vec<String>, found: Vec<String>) -> (r: Vec<String>)
    ensures
        string_list_view(r@) == and_roots(string_list_view(more@), 0, string_list_view(found@)),
    decreases more@, 0nat,
{
    let mut out: Vec<String> = found;
    let ghost goal = and_roots(string_list_view(more@), 0, string_list_view(found@));
    let mut i: usize = 0;
    while i < more.len()
        invariant
            i <= more@.len(),
            string_list_view(more@).len() == more@.len(),
            and_roots(string_list_view(more@), i as nat, string_list_view(out@)) == goal,
            goal == and_roots(string_list_view(more@), 0, string_list_view(found@)),
        decreases more@.len() - i,
    {
        let root = &more[i];
        assert(string_list_view(more@)[i as int] == root@);
        let item = root.clone();
        let ghost before = string_list_view(out@);
        let ghost added = item@;
        out.push(item);
        assert(string_list_view(out@) =~= before.push(added));
        i = i + 1;
    }
    out
}

/// A command line at whose end no option waits for its value.
#[verifier::opaque]
pub open spec fn completed(
    cli: CliArgsView,
    waiting: Option<Seq<char>>,
) -> Result<CliArgsView, Seq<char>> {
    match waiting {
        Some(option) => Err(value_missing(option)),
        None => Ok(cli),
    }
}

/// See [`completed`].
pub fn complete(cli: CliArgs, waiting: &Option<String>) -> (r: Result<CliArgs, String>)
    ensures
        (match r { Ok(v) => Ok(v@), Err(v) => Err(v@) }) == completed(cli@, opt_view(*waiting)),
{
    proof { reveal(completed); }
    match waiting {
        Some(option) => Err(missing_value(option)),
        None => Ok(cli),
    }
}

/// A command line. Options may stand anywhere in it. The search roots are those of
/// the options in their order, and then the bundled ones.
#[verifier::opaque]
pub open spec fn command_line(
    raw: Seq<Seq<char>>,
    bundled: Seq<Seq<char>>,
) -> Result<CliArgsView, Seq<char>> {
    let start = CliArgsView {
        backend: None,
        args: Seq::empty(),
        link_options: LinkOptionsView { search_roots: Seq::empty() },
    };
    match words_parsed(raw, 0, start, None) {
        Ok(out) => {
            let (cli, waiting) = out;
            match completed(cli, waiting) {
                Ok(out) => {
                    let cli = out;
                    let roots = and_roots(bundled, 0, cli.link_options.search_roots);
                    Ok(
                        CliArgsView {
                            backend: cli.backend,
                            args: cli.args,
                            link_options: LinkOptionsView { search_roots: roots },
                        }
                    )
                },
                Err(error) => Err(error),
            }
        },
        Err(error) => Err(error),
    }
}

/// See [`command_line`].
pub fn parse_cli_args(raw: &Vec<String>, bundled: &Vec<String>) -> (r: Result<CliArgs, String>)
    ensures
        (match r { Ok(v) => Ok(v@), Err(v) => Err(v@) }) == command_line(
            string_list_view(raw@),
            string_list_view(bundled@),
        ),
{
    proof { reveal(command_line); }
    let list: Vec<String> = Vec::new();
    assert(string_list_view(list@) =~= Seq::<Seq<char>>::empty());
    let list2: Vec<String> = Vec::new();
    assert(string_list_view(list2@) =~= Seq::<Seq<char>>::empty());
    let options = LinkOptions { search_roots: list2 };
    proof { unfold_link_options(options); }
    let args = CliArgs { backend: None, args: list, link_options: options };
    proof { unfold_cli_args(args); }
    let start = args;
    let (cli, waiting) = match parse_words(raw, start) {
        Ok(done) => done,
        Err(error) => {
            return Err(error);
        },
    };
    let cli = match complete(cli, &waiting) {
        Ok(done) => done,
        Err(error) => {
            return Err(error);
        },
    };
    let roots = with_roots(bundled, cli.link_options.search_roots);
    let options2 = LinkOptions { search_roots: roots };
    proof { unfold_link_options(options2); }
    let args2 = CliArgs { backend: cli.backend, args: cli.args, link_options: options2 };
    proof { unfold_cli_args(args2); }
    Ok(args2)
}

} // verus!
