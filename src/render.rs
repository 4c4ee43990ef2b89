//! Human-readable, shell-quoted rendering of a command line, used in
//! diagnostics and in the usage line.

use crate::escape::{escape_word, escaped, QuoteStyle};
use vstd::prelude::*;

verus! {

/// Words joined by single spaces, in order.
pub open spec fn joined(words: Seq<Seq<char>>) -> Seq<char>
    decreases words.len(),
{
    if words.len() == 0 {
        Seq::empty()
    } else if words.len() == 1 {
        words[0]
    } else {
        joined(words.drop_last()) + seq![' '] + words.last()
    }
}

/// The quoted program name followed by each quoted argument, in order.
pub open spec fn escaped_words(style: QuoteStyle, program: Seq<char>, args: Seq<Seq<char>>) -> Seq<
    Seq<char>,
> {
    seq![escaped(style, program)] + args.map_values(|a: Seq<char>| escaped(style, a))
}

/// The rendered command line: the quoted program and arguments, separated by
/// single spaces.
pub open spec fn command_line(style: QuoteStyle, program: Seq<char>, args: Seq<Seq<char>>) -> Seq<
    char,
> {
    joined(escaped_words(style, program, args))
}

/// The usage line that names the supervisor's own executable.
pub open spec fn usage_text(style: QuoteStyle, exe_file_name: Seq<char>) -> Seq<char> {
    "Usage: "@ + escaped(style, exe_file_name) + " program arguments …"@
}

/// Renders `program` and `args` as one line: each word quoted on its own, the
/// words in their order, separated by single spaces.
pub fn build_command_line_string(program: &str, args: &Vec<String>, style: QuoteStyle) -> (r:
    String)
    ensures
        r@ == command_line(style, program@, args.deep_view()),
{
    let ghost words = args.deep_view();
    let mut result = escape_word(program, style);
    proof {
        reveal_strlit(" ");
        lemma_command_line_structure(style, program@, words, program@);
        assert(words.take(0) =~= Seq::<Seq<char>>::empty());
    }
    let mut i: usize = 0;
    while i < args.len()
        invariant
            i <= args.len(),
            words == args.deep_view(),
            result@ == command_line(style, program@, words.take(i as int)),
        decreases args.len() - i,
    {
        let word = escape_word(args[i].as_str(), style);
        result.append(" ");
        result.append(word.as_str());
        proof {
            reveal_strlit(" ");
            assert(words[i as int] == args[i as int]@);
            assert(words.take(i + 1) =~= words.take(i as int).push(words[i as int]));
            lemma_command_line_structure(style, program@, words.take(i as int), words[i as int]);
        }
        i = i + 1;
    }
    proof {
        assert(words.take(args.len() as int) =~= words);
    }
    result
}

/// The one-line usage message, naming the executable by its file name.
pub fn usage_line(exe_file_name: &str, style: QuoteStyle) -> (r: String)
    ensures
        r@ == usage_text(style, exe_file_name@),
{
    let name = escape_word(exe_file_name, style);
    proof {
        reveal_strlit("Usage: ");
        reveal_strlit(" program arguments …");
    }
    let r = String::from_str("Usage: ").concat(name.as_str()).concat(" program arguments …");
    r
}

/// The rendered line of no arguments is the quoted program alone, and each
/// further argument adds one space and that argument quoted on its own, after
/// all that came before it.
pub proof fn lemma_command_line_structure(
    style: QuoteStyle,
    program: Seq<char>,
    args: Seq<Seq<char>>,
    arg: Seq<char>,
)
    ensures
        command_line(style, program, Seq::empty()) == escaped(style, program),
        command_line(style, program, args.push(arg)) == command_line(style, program, args)
            + seq![' '] + escaped(style, arg),
{
    assert(escaped_words(style, program, Seq::empty()) =~= seq![escaped(style, program)]);
    let longer = escaped_words(style, program, args.push(arg));
    assert(longer.drop_last() =~= escaped_words(style, program, args));
}

/// Rendering is a function of the style, the program and the arguments alone:
/// two renderings of the same invocation are the same text.
pub proof fn lemma_rendering_deterministic(
    style: QuoteStyle,
    program: &str,
    args: &Vec<String>,
    first: String,
    second: String,
)
    requires
        first@ == command_line(style, program@, args.deep_view()),
        second@ == command_line(style, program@, args.deep_view()),
    ensures
        first@ == second@,
{
}

} // verus!
