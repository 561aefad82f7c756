//! What cutting and joining texts comes to.

use crate::git::meaning::lacks;
use crate::text::control;
use crate::text::is_space;
use crate::text::join;
use crate::text::join_text;
use crate::text::lemma_pieces_nonempty;
use crate::text::pieces;
use crate::text::space;
use crate::text::split;
use crate::text::starts_with;
use crate::text::strip_prefix;
use crate::text::trim;
use crate::text::trim_end_text;
use crate::text::trim_start_text;
use crate::text::trim_text;
use crate::text::trims_to_nothing;
use crate::text::views;
use crate::text::words;
use crate::text::words_text;
use vstd::prelude::*;

verus! {

/// Whether a text holds nothing but white space.
pub open spec fn all_space(text: Seq<char>) -> bool {
    forall|i: int| 0 <= i < text.len() ==> is_space(#[trigger] text[i])
}

/// Whether a text is a run of characters none of which is white space.
pub open spec fn is_word(word: Seq<char>) -> bool {
    word.len() > 0 && forall|i: int| 0 <= i < word.len() ==> !is_space(#[trigger] word[i])
}

/// A word behind white space, or at the beginning, is a word more.
pub proof fn lemma_word_added(before: Seq<char>, word: Seq<char>)
    requires
        before.len() == 0 || is_space(before.last()),
        is_word(word),
    ensures
        words_text(before + word) == words_text(before).push(word),
    decreases word.len(),
{
    let text = before + word;
    assert(text.last() == word[word.len() - 1]);
    if word.len() == 1 {
        assert(text.drop_last() =~= before);
        assert(word =~= seq![text.last()]);
        if text.len() > 1 {
            assert(text[text.len() - 2] == before.last());
        }
    } else {
        let shorter = word.drop_last();
        assert forall|i: int| 0 <= i < shorter.len() implies !is_space(#[trigger] shorter[i]) by {
            assert(shorter[i] == word[i]);
        }
        lemma_word_added(before, shorter);
        assert(text.drop_last() =~= before + shorter);
        assert(text[text.len() - 2] == word[word.len() - 2]);
        let found = words_text(before).push(shorter);
        assert(found.drop_last() =~= words_text(before));
        assert(shorter.push(word.last()) =~= word);
    }
}

/// A part behind a separator, or at the beginning, is the last piece.
pub proof fn lemma_piece_added<T>(before: Seq<T>, part: Seq<T>, separator: T)
    requires
        before.len() == 0 || before.last() == separator,
        lacks(part, separator),
    ensures
        pieces(before + part, separator) == pieces(before, separator).drop_last().push(part),
        pieces(before, separator).len() > 0,
    decreases part.len(),
{
    lemma_pieces_nonempty(before, separator);
    let whole = before + part;
    if part.len() == 0 {
        assert(whole =~= before);
        assert(pieces(before, separator).last() =~= part);
        assert(pieces(before, separator) =~= pieces(before, separator).drop_last().push(part));
    } else {
        let shorter = part.drop_last();
        assert forall|i: int| 0 <= i < shorter.len() implies #[trigger] shorter[i] != separator by {
            assert(shorter[i] == part[i]);
        }
        lemma_piece_added(before, shorter, separator);
        assert(whole.drop_last() =~= before + shorter);
        assert(whole.last() == part[part.len() - 1]);
        let found = pieces(before, separator).drop_last().push(shorter);
        assert(found.drop_last() =~= pieces(before, separator).drop_last());
        assert(shorter.push(part.last()) =~= part);
    }
}

/// Among the ASCII characters, the blank and the five from the tab to the carriage return
/// are white space and no others; and the first thirty-two and the last are control
/// characters.
pub proof fn ascii_white_space(c: char, white: bool, special: bool)
    requires
        c as u32 <= 0x7f,
        call_ensures(space, (c,), white),
        call_ensures(control, (c,), special),
    ensures
        white <==> c == ' ' || c == '\t' || c == '\n' || c as u32 == 0x0b || c as u32 == 0x0c || c
            == '\r',
        special <==> (c as u32) < 0x20 || c as u32 == 0x7f,
{
}

proof fn lemma_trim_start(text: Seq<char>)
    ensures
        ({
            let rest = trim_start_text(text);
            &&& rest.len() <= text.len()
            &&& rest == text.skip(text.len() - rest.len())
            &&& all_space(text.take(text.len() - rest.len()))
            &&& rest.len() > 0 ==> !is_space(rest[0])
        }),
    decreases text.len(),
{
    let rest = trim_start_text(text);
    if text.len() > 0 && is_space(text[0]) {
        let shorter = text.drop_first();
        lemma_trim_start(shorter);
        assert(rest =~= text.skip(text.len() - rest.len()));
        let cut = text.take(text.len() - rest.len());
        assert forall|i: int| 0 <= i < cut.len() implies is_space(#[trigger] cut[i]) by {
            if i > 0 {
                assert(cut[i] == shorter.take(shorter.len() - rest.len())[i - 1]);
            }
        }
    } else {
        assert(rest =~= text.skip(0));
    }
}

proof fn lemma_trim_end(text: Seq<char>)
    ensures
        ({
            let rest = trim_end_text(text);
            &&& rest.len() <= text.len()
            &&& rest == text.take(rest.len() as int)
            &&& all_space(text.skip(rest.len() as int))
            &&& rest.len() > 0 ==> !is_space(rest.last())
        }),
    decreases text.len(),
{
    let rest = trim_end_text(text);
    if text.len() > 0 && is_space(text.last()) {
        let shorter = text.drop_last();
        lemma_trim_end(shorter);
        assert(rest =~= text.take(rest.len() as int));
        let cut = text.skip(rest.len() as int);
        assert forall|i: int| 0 <= i < cut.len() implies is_space(#[trigger] cut[i]) by {
            if i < cut.len() - 1 {
                assert(cut[i] == shorter.skip(rest.len() as int)[i]);
            }
        }
    } else {
        assert(rest =~= text.take(text.len() as int));
    }
}

/// Trimming takes away white space and nothing else: what stands before and behind the
/// trimmed text is white space, and the trimmed text neither begins nor ends with any.
pub proof fn trimming_takes_only_white_space(text: &str, trimmed: String, blank: bool)
    requires
        call_ensures(trim, (text,), trimmed),
        call_ensures(trims_to_nothing, (text,), blank),
    ensures
        exists|before: Seq<char>, behind: Seq<char>|
            #![trigger all_space(before), all_space(behind)]
            all_space(before) && all_space(behind) && text@ == before + trimmed@ + behind,
        trimmed@.len() > 0 ==> !is_space(trimmed@[0]) && !is_space(trimmed@.last()),
        blank <==> all_space(text@),
{
    let rest = trim_start_text(text@);
    lemma_trim_start(text@);
    lemma_trim_end(rest);
    let before = text@.take(text@.len() - rest.len());
    let behind = rest.skip(trimmed@.len() as int);
    assert(text@ =~= before + trimmed@ + behind);
    assert(all_space(before) && all_space(behind));
    if trimmed@.len() > 0 {
        assert(trimmed@[0] == rest[0]);
        assert(text@[before.len() as int] == rest[0]);
    } else {
        assert forall|i: int| 0 <= i < text@.len() implies is_space(#[trigger] text@[i]) by {
            if i < before.len() {
                assert(before[i] == text@[i]);
            } else {
                assert(behind[i - before.len()] == text@[i]);
            }
        }
    }
}

/// Nothing joined is nothing, one text joined is itself, and each further text stands
/// behind the separator.
pub proof fn joining_keeps_every_text(
    fewer: &Vec<String>,
    more: &Vec<String>,
    last: String,
    separator: &str,
    short: String,
    long: String,
)
    requires
        more@ == fewer@.push(last),
        call_ensures(join, (fewer, separator), short),
        call_ensures(join, (more, separator), long),
    ensures
        fewer@.len() == 0 ==> short@ == Seq::<char>::empty() && long@ == last@,
        fewer@.len() > 0 ==> long@ == short@ + separator@ + last@,
{
    assert(views(more@) =~= views(fewer@).push(last@));
    assert(views(fewer@).push(last@).drop_last() =~= views(fewer@));
    if fewer@.len() == 0 {
        assert(views(fewer@) =~= seq![]);
        reveal_with_fuel(join_text, 2);
        assert(long@ =~= last@);
    }
}

/// Cutting a text at a character and joining the parts again gives the text, and no part
/// holds that character.
pub proof fn split_parts_lack_the_separator(
    before: Seq<char>,
    part: Seq<char>,
    separator: char,
    text: &str,
    parts: Vec<String>,
)
    requires
        lacks(part, separator),
        text@ == before.push(separator) + part,
        call_ensures(split, (text, separator), parts),
    ensures
        parts@.len() > 1,
        parts@.last()@ == part,
        views(parts@).drop_last() == pieces(before, separator),
{
    let head = before.push(separator);
    lemma_piece_added(head, part, separator);
    assert(head.drop_last() =~= before);
    lemma_pieces_nonempty(before, separator);
    assert(pieces(head, separator) == pieces(before, separator).push(seq![]));
    assert(pieces(head, separator).drop_last() =~= pieces(before, separator));
    assert(views(parts@).drop_last() =~= pieces(before, separator));
    assert(views(parts@).last() == parts@.last()@);
}

/// A text begins with a prefix exactly if something can stand behind the prefix to make
/// the text, and stripping it leaves just that.
pub proof fn prefix_is_stripped(text: &str, prefix: &str, begins: bool, rest: Option<String>)
    requires
        call_ensures(starts_with, (text, prefix), begins),
        call_ensures(strip_prefix, (text, prefix), rest),
    ensures
        begins <==> exists|tail: Seq<char>| text@ == #[trigger] (prefix@ + tail),
        begins <==> rest is Some,
        rest matches Some(tail) ==> text@ == prefix@ + tail@,
{
    if begins {
        let tail = text@.skip(prefix@.len() as int);
        assert(text@ =~= prefix@ + tail);
    }
    if exists|tail: Seq<char>| text@ == #[trigger] (prefix@ + tail) {
        let tail = choose|tail: Seq<char>| text@ == #[trigger] (prefix@ + tail);
        assert(text@.take(prefix@.len() as int) =~= prefix@);
    }
}

/// The words of a text are the runs between white space: a word that is put behind white
/// space becomes the last one, and white space at the end changes nothing.
pub proof fn words_stand_between_white_space(
    before: Seq<char>,
    word: Seq<char>,
    blank: char,
    shorter: &str,
    longer: &str,
    fewer: Vec<String>,
    more: Vec<String>,
)
    requires
        is_word(word),
        is_space(blank),
        shorter@ == before.push(blank),
        longer@ == before.push(blank) + word,
        call_ensures(words, (shorter,), fewer),
        call_ensures(words, (longer,), more),
    ensures
        views(more@) == views(fewer@).push(word),
        views(fewer@) == words_text(before),
{
    lemma_word_added(before.push(blank), word);
    assert(before.push(blank).drop_last() =~= before);
}

/// Nothing is left of a text exactly if it holds nothing but white space.
pub proof fn lemma_all_space(text: Seq<char>)
    ensures
        trim_text(text).len() == 0 <==> all_space(text),
{
    let rest = trim_start_text(text);
    lemma_trim_start(text);
    lemma_trim_end(rest);
    let before = text.take(text.len() - rest.len());
    if trim_text(text).len() == 0 {
        assert(rest.skip(0) =~= rest);
        assert forall|i: int| 0 <= i < text.len() implies is_space(#[trigger] text[i]) by {
            if i < before.len() {
                assert(before[i] == text[i]);
            } else {
                assert(rest[i - before.len()] == text[i]);
            }
        }
    } else {
        let trimmed = trim_text(text);
        assert(trimmed[0] == rest[0]);
        assert(text[before.len() as int] == rest[0]);
    }
}

} // verus!
