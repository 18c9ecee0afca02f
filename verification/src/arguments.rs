//! What the words of a command line mean.

use crate::cli::{
    after, and_arg, and_backend, and_option, and_plain, and_root, and_roots, and_separate, and_word,
    command_line, completed, option_separate, plain_argument, word_parsed, words_parsed,
    CliArgsView,
};
use crate::linking::LinkOptionsView;
use vstd::prelude::*;

verus! {

/// Whether a word is no option: it does not begin with a dash.
pub open spec fn is_argument(word: Seq<char>) -> bool {
    word.len() == 0 || word[0] != '-'
}

proof fn options_begin_with_a_dash(word: Seq<char>)
    requires
        is_argument(word),
    ensures
        !option_separate(word),
        after(word, "--backend="@) is None,
        after(word, "--module-path="@) is None,
        after(word, "--stdlib="@) is None,
        plain_argument(word),
{
    reveal(option_separate);
    reveal(after);
    reveal(plain_argument);
    reveal_strlit("--backend");
    reveal_strlit("--module-path");
    reveal_strlit("-I");
    reveal_strlit("--stdlib");
    reveal_strlit("--backend=");
    reveal_strlit("--module-path=");
    reveal_strlit("--stdlib=");
    reveal_strlit("-");
    assert("--backend"@[0] == '-' && "--module-path"@[0] == '-' && "-I"@[0] == '-' && "--stdlib"@[0]
        == '-');
    assert("--backend="@[0] == '-' && "--module-path="@[0] == '-' && "--stdlib="@[0] == '-'
        && "-"@[0] == '-');
}

proof fn arguments_so_far(raw: Seq<Seq<char>>, i: nat, cli: CliArgsView)
    requires
        i <= raw.len(),
        forall|k: int| 0 <= k < raw.len() ==> is_argument(#[trigger] raw[k]),
    ensures
        words_parsed(raw, i, cli, None) == Ok::<_, Seq<char>>(
            (CliArgsView { args: cli.args + raw.skip(i as int), ..cli }, None::<Seq<char>>),
        ),
    decreases raw.len() - i,
{
    if i < raw.len() {
        let word = raw[i as int];
        options_begin_with_a_dash(word);
        reveal(word_parsed);
        reveal(and_word);
        reveal(and_plain);
        reveal(and_arg);
        let next = CliArgsView { args: cli.args.push(word), ..cli };
        assert(word_parsed(cli, None, word) == Ok::<_, Seq<char>>((next, None::<Seq<char>>)));
        arguments_so_far(raw, i + 1, next);
        assert(cli.args.push(word) + raw.skip(i as int + 1) =~= cli.args + raw.skip(i as int));
    } else {
        assert(cli.args + raw.skip(i as int) =~= cli.args);
    }
}

proof fn roots_are_added(more: Seq<Seq<char>>, i: nat, out: Seq<Seq<char>>)
    requires
        i <= more.len(),
    ensures
        and_roots(more, i, out) == out + more.skip(i as int),
    decreases more.len() - i,
{
    if i < more.len() {
        roots_are_added(more, i + 1, out.push(more[i as int]));
        assert(out.push(more[i as int]) + more.skip(i as int + 1) =~= out + more.skip(i as int));
    } else {
        assert(out + more.skip(i as int) =~= out);
    }
}

/// Words that are no options are the arguments, in their order; without options there is no
/// backend and there are only the bundled roots.
pub proof fn words_are_arguments(raw: Seq<Seq<char>>, bundled: Seq<Seq<char>>)
    requires
        forall|k: int| 0 <= k < raw.len() ==> is_argument(#[trigger] raw[k]),
    ensures
        command_line(raw, bundled) matches Ok(cli) && cli.args == raw && cli.backend is None
            && cli.link_options.search_roots == bundled,
{
    reveal(command_line);
    reveal(completed);
    let start = CliArgsView {
        backend: None,
        args: Seq::empty(),
        link_options: LinkOptionsView { search_roots: Seq::empty() },
    };
    arguments_so_far(raw, 0, start);
    assert(Seq::<Seq<char>>::empty() + raw.skip(0) =~= raw);
    roots_are_added(bundled, 0, Seq::empty());
    assert(Seq::<Seq<char>>::empty() + bundled.skip(0) =~= bundled);
}

/// An option that takes a value waits for the next word. The backend is the last one that was
/// named; a path is one more place to look for modules, behind those before it, and is not
/// empty.
pub proof fn options_take_their_values(cli: CliArgsView, word: Seq<char>)
    ensures
        word_parsed(cli, None, "--backend"@) == Ok::<_, Seq<char>>((cli, Some("--backend"@))),
        word_parsed(cli, None, "-I"@) == Ok::<_, Seq<char>>((cli, Some("-I"@))),
        word_parsed(cli, Some("--backend"@), word) == Ok::<_, Seq<char>>(
            (CliArgsView { backend: Some(word), ..cli }, None::<Seq<char>>),
        ),
        match word_parsed(cli, Some("-I"@), word) {
            Ok((next, waiting)) => word.len() > 0 && waiting is None && next.args == cli.args
                && next.backend == cli.backend && next.link_options.search_roots
                == cli.link_options.search_roots.push(word),
            Err(_) => word.len() == 0,
        },
{
    reveal(word_parsed);
    reveal(option_separate);
    reveal(and_separate);
    reveal(and_backend);
    reveal(and_option);
    reveal(and_root);
    reveal_strlit("-I");
    reveal_strlit("--backend");
    reveal_strlit("");
    assert("-I"@.len() == 2 && "--backend"@.len() == 9 && ""@.len() == 0);
    if word.len() == 0 {
        assert(word =~= ""@);
    }
}

} // verus!
