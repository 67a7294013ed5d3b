//! Reading answers typed at the terminal. The reads themselves are the caller's:
//! these functions take what a read returned and decide what follows.
use vstd::prelude::*;

use crate::text::{clear_string, lowercase, lowercase_of, pop_char};

verus! {

/// `s` without its last character (the line break that a read leaves), or `s` when empty.
pub open spec fn without_last(s: Seq<char>) -> Seq<char> {
    if s.len() > 0 {
        s.drop_last()
    } else {
        s
    }
}

/// Finishes a line read into `buff`: when the read succeeded, its last character (the
/// line break) is removed. The read's result is handed back unchanged.
pub fn input<E>(read: Result<usize, E>, buff: &mut String) -> (r: Result<usize, E>)
    ensures
        r == read,
        read is Ok ==> final(buff)@ == without_last(old(buff)@),
        read is Err ==> final(buff)@ == old(buff)@,
{
    if read.is_ok() {
        pop_char(buff);
    }
    read
}

/// The answer that a line gives to a yes/no question, all three already in lowercase:
/// `yes` means true, else `no` means false, else there is no answer.
pub open spec fn answer_of(line: Seq<char>, yes: Seq<char>, no: Seq<char>) -> Option<bool> {
    if line == yes {
        Some(true)
    } else if line == no {
        Some(false)
    } else {
        None
    }
}

/// Matches a lowercased line against the lowercased words for yes and for no.
pub fn match_answer(line: &String, yes: &String, no: &String) -> (r: Option<bool>)
    ensures
        r == answer_of(line@, yes@, no@),
{
    if line.eq(yes) {
        Some(true)
    } else if line.eq(no) {
        Some(false)
    } else {
        None
    }
}

/// The answer that a line gives to a yes/no question, case being ignored as
/// `str::to_lowercase` ignores it.
pub fn answer(line: &str, yes: &str, no: &str) -> (r: Option<bool>)
    ensures
        r == answer_of(lowercase_of(line@), lowercase_of(yes@), lowercase_of(no@)),
{
    let line_lower = lowercase(line);
    let yes_lower = lowercase(yes);
    let no_lower = lowercase(no);
    match_answer(&line_lower, &yes_lower, &no_lower)
}

/// What a yes/no prompt does after one read.
pub enum Prompt<E> {
    /// The read failed: the prompt gives up with the read's error.
    Failed(E),
    /// The line answered the question.
    Answered(bool),
    /// The line answered nothing: the buffer was emptied and the question is asked again.
    Again,
}

/// One round of a yes/no prompt: `read` is what reading a line into `buff` returned.
/// A failed read ends the prompt with its error and leaves `buff` alone; otherwise the line
/// break is dropped and the line is matched against `yes` and `no`, ignoring case; a line
/// that matches neither empties `buff` for the next round.
pub fn loop_bool_input_step<E>(read: Result<usize, E>, buff: &mut String, yes: &str, no: &str) -> (r:
    Prompt<E>)
    ensures
        match read {
            Err(e) => r == Prompt::<E>::Failed(e) && final(buff)@ == old(buff)@,
            Ok(_) => {
                let a = answer_of(
                    lowercase_of(without_last(old(buff)@)),
                    lowercase_of(yes@),
                    lowercase_of(no@),
                );
                match a {
                    Some(b) => r == Prompt::<E>::Answered(b) && final(buff)@ == without_last(
                        old(buff)@,
                    ),
                    None => r == Prompt::<E>::Again && final(buff)@ == Seq::<char>::empty(),
                }
            },
        },
{
    match input(read, buff) {
        Err(e) => Prompt::Failed(e),
        Ok(_) => {
            match answer(buff.as_str(), yes, no) {
                Some(b) => Prompt::Answered(b),
                None => {
                    clear_string(buff);
                    Prompt::Again
                },
            }
        },
    }
}

/// The outcome of a whole yes/no prompt over the lines that its successive reads give
/// (`None`: a failed read): the answer (`None`: the prompt failed with the read's error) and
/// the number of reads made, or `None` when the lines run out before the prompt ends.
pub open spec fn prompt_outcome(lines: Seq<Option<Seq<char>>>, yes: Seq<char>, no: Seq<char>) -> Option<
    (Option<bool>, nat),
>
    decreases lines.len(),
{
    if lines.len() == 0 {
        None
    } else {
        match lines[0] {
            None => Some((None, 1)),
            Some(line) => match answer_of(
                lowercase_of(without_last(line)),
                lowercase_of(yes),
                lowercase_of(no),
            ) {
                Some(b) => Some((Some(b), 1)),
                None => match prompt_outcome(lines.drop_first(), yes, no) {
                    Some((a, reads)) => Some((a, reads + 1)),
                    None => None,
                },
            },
        }
    }
}

/// Case is ignored throughout a prompt: two prompts whose lines (without their line breaks),
/// words for yes and words for no have the same lowercase forms, and whose reads fail at the
/// same places, give the same answer after the same number of reads.
pub proof fn lemma_prompt_ignores_case(
    lines1: Seq<Option<Seq<char>>>,
    lines2: Seq<Option<Seq<char>>>,
    yes1: Seq<char>,
    yes2: Seq<char>,
    no1: Seq<char>,
    no2: Seq<char>,
)
    requires
        lines1.len() == lines2.len(),
        forall|i: int| 0 <= i < lines1.len() ==> (#[trigger] lines1[i] is None <==> lines2[i] is None),
        forall|i: int|
            0 <= i < lines1.len() && #[trigger] lines1[i] is Some ==> lowercase_of(
                without_last(lines1[i]->0),
            ) == lowercase_of(without_last(lines2[i]->0)),
        lowercase_of(yes1) == lowercase_of(yes2),
        lowercase_of(no1) == lowercase_of(no2),
    ensures
        prompt_outcome(lines1, yes1, no1) == prompt_outcome(lines2, yes2, no2),
    decreases lines1.len(),
{
    if lines1.len() > 0 {
        assert(lines1[0] is None <==> lines2[0] is None);
        lemma_prompt_ignores_case(
            lines1.drop_first(),
            lines2.drop_first(),
            yes1,
            yes2,
            no1,
            no2,
        );
    }
}

/// A line answers yes exactly when it is the word for yes, and no exactly when it is the word
/// for no but not the word for yes; any other line, the empty one too, answers nothing.
pub proof fn lemma_answer_only_for_the_words(line: Seq<char>, yes: Seq<char>, no: Seq<char>)
    ensures
        answer_of(line, yes, no) == Some(true) <==> line == yes,
        answer_of(line, yes, no) == Some(false) <==> line != yes && line == no,
        answer_of(line, yes, no) is None <==> line != yes && line != no,
{
}

/// Finishing a line drops exactly its last character: what remains, followed by that
/// character, is the line; an empty line stays empty.
pub proof fn lemma_without_last(s: Seq<char>)
    ensures
        s.len() > 0 ==> without_last(s).len() == s.len() - 1 && without_last(s).push(s.last()) == s,
        s.len() == 0 ==> without_last(s) == s,
        forall|i: int| 0 <= i < without_last(s).len() ==> #[trigger] without_last(s)[i] == s[i],
{
    if s.len() > 0 {
        assert(s.drop_last().push(s.last()) =~= s);
    }
}

} // verus!
