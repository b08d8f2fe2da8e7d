//! What names, URLs and directories are made of, and what errors say.

use crate::error::{kind_debug, removal_text, ErrorView};
use crate::laws::lemma_codes;
use crate::repo::{supported_url, RepoErrorView};
use crate::text::{begins_with, blank, white_space};
use crate::volume::{component, directory, entry_name, escape, escaped, prefix};
use crate::volumes::VolumesErrorView;
use vstd::prelude::*;

verus! {

/// A text is blank exactly if all of it is: nothing is blank, a single
/// character is if it is white space, and two texts together are if both are.
pub proof fn law_blank(text: Seq<char>, other: Seq<char>, c: char)
    ensures
        blank(Seq::empty()),
        blank(seq![c]) <==> white_space(c),
        blank(text + other) <==> blank(text) && blank(other),
        (exists|i: int| 0 <= i < text.len() && !white_space(#[trigger] text[i])) <==> !blank(text),
{
    if blank(seq![c]) {
        assert(white_space(seq![c][0]));
    }
    if blank(text + other) {
        assert forall|i: int| 0 <= i < text.len() implies white_space(#[trigger] text[i]) by {
            assert((text + other)[i] == text[i]);
        }
        assert forall|i: int| 0 <= i < other.len() implies white_space(#[trigger] other[i]) by {
            assert((text + other)[text.len() + i] == other[i]);
        }
    }
}

/// Letters, digits and what else is printed in ASCII are no white space; the
/// space and the characters that move the cursor are.
pub proof fn law_ascii_white_space(c: char)
    requires
        c <= '\u{7f}',
    ensures
        white_space(c) <==> c == ' ' || c == '\t' || c == '\n' || c == '\u{b}' || c == '\u{c}' || c
            == '\r',
{
}

/// A text begins with whatever it continues, and with nothing else.
pub proof fn law_beginning(text: Seq<char>, start: Seq<char>, rest: Seq<char>)
    ensures
        begins_with(start + rest, start),
        begins_with(text, start) ==> text == start + text.skip(start.len() as int),
{
    assert((start + rest).subrange(0, start.len() as int) =~= start);
    if begins_with(text, start) {
        assert(text.subrange(0, start.len() as int) =~= start);
        assert(text =~= text.subrange(0, start.len() as int) + text.skip(start.len() as int));
    }
}

/// A repository is cloned from any `http` or `https` URL, and from no other.
pub proof fn law_supported_urls(url: Seq<char>, rest: Seq<char>)
    ensures
        supported_url("http://"@ + rest),
        supported_url("https://"@ + rest),
        supported_url(url) ==> url == "http://"@ + url.skip(7) || url == "https://"@ + url.skip(8),
{
    reveal_strlit("http://");
    reveal_strlit("https://");
    law_beginning(url, "http://"@, rest);
    law_beginning(url, "https://"@, rest);
}

/// Which characters a directory is not named with, and what stands for them.
pub proof fn law_escapes(c: char)
    ensures
        escape('%') == seq!['%', '2', '5'],
        escape('/') == seq!['%', '2', 'F'],
        escape('\0') == seq!['%', '0', '0'],
        c != '%' && c != '/' && c != '\0' ==> escape(c) == seq![c],
{
    lemma_codes();
}

/// A name is escaped character by character.
pub proof fn law_escaped_by_character(name: Seq<char>, rest: Seq<char>, c: char)
    ensures
        escaped(Seq::empty()) == Seq::<char>::empty(),
        escaped(seq![c]) == escape(c),
        escaped(name + rest) == escaped(name) + escaped(rest),
    decreases name.len(),
{
    assert(seq![c].skip(1) =~= Seq::<char>::empty());
    assert(escaped(seq![c].skip(1)) =~= Seq::<char>::empty());
    assert(escaped(seq![c]) =~= escape(c));
    if name.len() == 0 {
        assert(name + rest =~= rest);
        assert(escaped(name) =~= Seq::<char>::empty());
        assert(escaped(name) + escaped(rest) =~= escaped(rest));
    } else {
        law_escaped_by_character(name.skip(1), rest, c);
        assert((name + rest).skip(1) =~= name.skip(1) + rest);
        assert((name + rest)[0] == name[0]);
        assert(escaped(name + rest) =~= escaped(name) + escaped(rest));
    }
}

/// A name that has none of those characters is its own path component, unless
/// it begins with a dot; then a code stands for the dot alone.
pub proof fn law_plain_names(name: Seq<char>)
    requires
        forall|i: int|
            0 <= i < name.len() ==> {
                &&& #[trigger] name[i] != '%'
                &&& name[i] != '/'
                &&& name[i] != '\0'
            },
    ensures
        escaped(name) == name,
        name.len() == 0 || name[0] != '.' ==> component(name) == name,
        name.len() > 0 && name[0] == '.' ==> component(name) == seq!['%', '2', 'E'] + name.skip(1),
    decreases name.len(),
{
    lemma_codes();
    if name.len() > 0 {
        assert forall|i: int| 0 <= i < name.skip(1).len() implies {
            &&& #[trigger] name.skip(1)[i] != '%'
            &&& name.skip(1)[i] != '/'
            &&& name.skip(1)[i] != '\0'
        } by {
            assert(name.skip(1)[i] == name[i + 1]);
        }
        law_plain_names(name.skip(1));
        assert(name[0] != '%' && name[0] != '/' && name[0] != '\0');
        assert(escaped(name) =~= name);
    } else {
        assert(escaped(name) =~= name);
    }
}

/// A dot at the beginning of a name is escaped too, and what follows it like
/// any name; other names are just escaped.
pub proof fn law_components(name: Seq<char>)
    ensures
        component(seq!['.'] + name) == seq!['%', '2', 'E'] + escaped(name),
        name.len() == 0 || name[0] != '.' ==> component(name) == escaped(name),
{
    lemma_codes();
    assert((seq!['.'] + name).skip(1) =~= name);
}

/// What the name of an entry is.
pub proof fn law_entry_names(text: Seq<char>)
    ensures
        entry_name(text) <==> {
            &&& text.len() > 0
            &&& text[0] != '.'
            &&& forall|i: int| 0 <= i < text.len() ==> #[trigger] text[i] != '/' && text[i] != '\0'
        },
{
    if entry_name(text) {
        assert forall|i: int| 0 <= i < text.len() implies #[trigger] text[i] != '/' && text[i]
            != '\0' by {
            assert(text.contains(text[i]));
        }
    }
}

/// The directory of a volume is the base path, one separator, and the component
/// of its name. A base path that is empty or has its separator gets none.
pub proof fn law_directories(base_path: Seq<char>, name: Seq<char>)
    ensures
        directory(Seq::empty(), name) == component(name),
        directory(base_path.push('/'), name) == base_path.push('/') + component(name),
        base_path.len() > 0 && base_path.last() != '/' ==> directory(base_path, name) == base_path
            + seq!['/'] + component(name),
        directory(base_path, name) == prefix(base_path) + component(name),
{
    reveal_strlit("/");
    assert("/"@ =~= seq!['/']);
    assert(Seq::<char>::empty() + component(name) =~= component(name));
}

/// What each error says: the name, the URL, the directory or the words of git
/// that it is about, and what is the matter.
pub proof fn law_messages(
    text: Seq<char>,
    operation: Seq<char>,
    words: Seq<char>,
    kind: std::io::ErrorKind,
    refused: RepoErrorView,
    error: VolumesErrorView,
)
    ensures
        RepoErrorView::MissingUrl.text() == "The url is required"@,
        RepoErrorView::UnsupportedUrl(text).text() == "The url "@ + text + " is not supported"@,
        RepoErrorView::BranchAndTag.text() == "The branch and the tag are mutually exclusive"@,
        VolumesErrorView::NonExists(text).text() == "Volume named "@ + text + " not found"@,
        VolumesErrorView::AlreadyExists(text).text() == "Volume named "@ + text
            + " already exists"@,
        VolumesErrorView::EmptyName.text() == "The volume name is empty"@,
        VolumesErrorView::Repo(refused).text() == refused.text(),
        ErrorView::Volumes(error).text() == error.text(),
        ErrorView::Git(text).text() == text,
        (ErrorView::RemoveDir { path: text, operation, kind }).text()
            == "Failed deletion of directory "@ + text + " for "@ + operation + ". "@ + kind_debug(
            kind,
        ),
        removal_text(text, operation, words) == "Failed deletion of directory "@ + text + " for "@
            + operation + ". "@ + words,
{
}

} // verus!
