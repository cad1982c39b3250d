//! User-editable settings: the command that starts the development server
//! and the error pattern to watch for.
//!
//! Reading and writing the settings file, and prompting the operator, happen
//! outside the library; the library holds the value itself, the defaulting
//! rule for empty answers, and the splitting of the run command into parts.
use vstd::prelude::*;

verus! {

/// The run command and error pattern chosen by the operator.
#[derive(Debug, Clone)]
pub struct CliConfig {
    /// Shell command that starts the development server.
    pub run_command: String,
    /// Substring whose appearance in an output line forces a restart.
    pub error_pattern: String,
}

impl CliConfig {
    /// True of the default choice: `pnpm dev`, watching for `"[Error"`.
    pub open spec fn is_default(self) -> bool {
        &&& self.run_command@ == "pnpm dev"@
        &&& self.error_pattern@ == "[Error"@
    }
}

impl Default for CliConfig {
    /// The default choice of run command and error pattern.
    fn default() -> (c: CliConfig)
        ensures
            c.is_default(),
    {
        CliConfig {
            run_command: "pnpm dev".to_owned(),
            error_pattern: "[Error".to_owned(),
        }
    }
}

/// The characters treated as word separators in a run command.
pub open spec fn is_space_char(c: char) -> bool {
    c == ' ' || c == '\t' || c == '\n' || c == '\r'
}

/// The position right after the word starting at `i`: the first position at
/// or after `i` holding a separator, or the end of the text.
pub open spec fn word_end(s: Seq<char>, i: int) -> int
    decreases s.len() - i,
{
    if 0 <= i < s.len() && !is_space_char(s[i]) {
        word_end(s, i + 1)
    } else {
        i
    }
}

/// The words of `s` from position `i` on: maximal runs of non-separator
/// characters, in order, separators dropped.
pub open spec fn split_words_from(s: Seq<char>, i: int) -> Seq<Seq<char>>
    decreases s.len() - i,
    via split_words_from_decreases
{
    if !(0 <= i < s.len()) {
        seq![]
    } else if is_space_char(s[i]) {
        split_words_from(s, i + 1)
    } else {
        seq![s.subrange(i, word_end(s, i))] + split_words_from(s, word_end(s, i))
    }
}

#[via_fn]
proof fn split_words_from_decreases(s: Seq<char>, i: int) {
    if 0 <= i < s.len() {
        lemma_word_end_bounds(s, i);
    }
}

/// The words of `s`: maximal runs of non-separator characters, in order.
pub open spec fn split_words(s: Seq<char>) -> Seq<Seq<char>> {
    split_words_from(s, 0)
}

/// `word_end(s, i)` lies between `i` and the end of the text, every
/// character before it from `i` on is part of the word, and the character
/// at it (if any) is a separator.
pub proof fn lemma_word_end_bounds(s: Seq<char>, i: int)
    requires
        0 <= i <= s.len(),
    ensures
        i <= word_end(s, i) <= s.len(),
        forall|m: int| i <= m < word_end(s, i) ==> !is_space_char(s[m]),
        word_end(s, i) < s.len() ==> is_space_char(s[word_end(s, i)]),
    decreases s.len() - i,
{
    if i < s.len() && !is_space_char(s[i]) {
        lemma_word_end_bounds(s, i + 1);
    }
}

impl CliConfig {
    /// The parts of the run command: its whitespace-separated words,
    /// in order, with no empty parts.
    pub fn get_command_parts(&self) -> (parts: Vec<String>)
        ensures
            parts.deep_view() == split_words(self.run_command@),
    {
        let s: &str = self.run_command.as_str();
        let n: usize = s.unicode_len();
        let mut parts: Vec<String> = Vec::new();
        let mut i: usize = 0;
        while i < n
            invariant
                i <= n,
                n == s@.len(),
                s@ == self.run_command@,
                split_words(self.run_command@) == parts.deep_view() + split_words_from(s@, i as int),
            decreases n - i,
        {
            let c = s.get_char(i);
            if is_space(c) {
                i += 1;
            } else {
                // scan to the end of the word starting at i
                let start = i;
                let mut j: usize = i + 1;
                while j < n && !is_space(s.get_char(j))
                    invariant
                        start < j <= n,
                        n == s@.len(),
                        forall|m: int| start <= m < j ==> !is_space_char(s@[m]),
                    decreases n - j,
                {
                    j += 1;
                }
                proof {
                    lemma_word_end_bounds(s@, start as int);
                    let we = word_end(s@, start as int);
                    // the scan stopped at the first separator at or after start,
                    // which is exactly word_end
                    if we < j {
                        assert(!is_space_char(s@[we]));
                    }
                    if we > j {
                        assert(!is_space_char(s@[j as int]));
                        assert(j == n || is_space_char(s@[j as int]));
                    }
                    assert(we == j);
                }
                let word: String = s.substring_char(start, j).to_owned();
                proof {
                    assert(split_words_from(s@, start as int) == seq![s@.subrange(
                        start as int,
                        j as int,
                    )] + split_words_from(s@, j as int));
                    assert((parts.deep_view().push(word@)) =~= (parts.deep_view() + seq![
                        s@.subrange(start as int, j as int),
                    ]));
                    assert((parts.deep_view() + seq![s@.subrange(start as int, j as int)])
                        + split_words_from(s@, j as int) =~= parts.deep_view() + split_words_from(
                        s@,
                        start as int,
                    ));
                }
                let ghost old_parts = parts.deep_view();
                parts.push(word);
                proof {
                    assert(parts.deep_view() =~= old_parts.push(word@));
                }
                i = j;
            }
        }
        proof {
            assert(split_words_from(s@, i as int) =~= Seq::<Seq<char>>::empty());
            assert(parts.deep_view() + Seq::<Seq<char>>::empty() =~= parts.deep_view());
        }
        parts
    }
}

/// Whether `c` separates words of a run command.
pub fn is_space(c: char) -> (b: bool)
    ensures
        b == is_space_char(c),
{
    c == ' ' || c == '\t' || c == '\n' || c == '\r'
}

/// The rule applied to an operator's answer at the prompt: a blank answer
/// (after trimming, the caller hands the trimmed text) keeps the default.
pub fn resolve_answer(answer: &str, default: &str) -> (chosen: String)
    ensures
        answer@.len() == 0 ==> chosen@ == default@,
        answer@.len() != 0 ==> chosen@ == answer@,
{
    if answer.is_empty() {
        default.to_owned()
    } else {
        answer.to_owned()
    }
}

} // verus!
