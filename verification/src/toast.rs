//! The screenshot notification.

use vstd::prelude::*;

use crate::text::{chars_of, concat2, put};

verus! {

/// The text that stands for a character in XML content.
pub open spec fn escape_char(c: char) -> Seq<char> {
    if c == '&' {
        "&amp;"@
    } else if c == '<' {
        "&lt;"@
    } else if c == '>' {
        "&gt;"@
    } else if c == '"' {
        "&quot;"@
    } else if c == '\'' {
        "&apos;"@
    } else {
        seq![c]
    }
}

/// Every character replaced by the text that stands for it.
pub open spec fn escaped(s: Seq<char>) -> Seq<char>
    decreases s.len(),
{
    if s.len() == 0 {
        seq![]
    } else {
        escaped(s.drop_last()) + escape_char(s.last())
    }
}

/// Escapes text for XML content and attributes.
pub fn xml_escape(s: &str) -> (out: String)
    ensures
        out@ == escaped(s@),
{
    let chars = chars_of(s);
    let mut out: String = String::new();
    let mut i: usize = 0;
    assert(chars@.take(0) =~= Seq::<char>::empty());
    while i < chars.len()
        invariant
            i <= chars.len(),
            out@ == escaped(chars@.take(i as int)),
        decreases chars.len() - i,
    {
        let c: char = chars[i];
        let ghost before = out@;
        if c == '&' {
            put(&mut out, "&amp;");
        } else if c == '<' {
            put(&mut out, "&lt;");
        } else if c == '>' {
            put(&mut out, "&gt;");
        } else if c == '"' {
            put(&mut out, "&quot;");
        } else if c == '\'' {
            put(&mut out, "&apos;");
        } else {
            out.push(c);
        }
        assert(out@ =~= before + escape_char(c));
        i += 1;
        assert(chars@.take(i as int).drop_last() =~= chars@.take(i - 1));
    }
    assert(chars@.take(chars@.len() as int) =~= chars@);
    out
}

/// Whether a character could end an attribute or open a tag.
pub open spec fn is_markup(c: char) -> bool {
    c == '<' || c == '>' || c == '"' || c == '\''
}

/// Escaped text holds no markup character.
pub proof fn escaped_text_is_inert(s: Seq<char>)
    ensures
        forall|i: int| 0 <= i < escaped(s).len() ==> !is_markup(#[trigger] escaped(s)[i]),
    decreases s.len(),
{
    if s.len() > 0 {
        escaped_text_is_inert(s.drop_last());
        reveal_strlit("&amp;");
        reveal_strlit("&lt;");
        reveal_strlit("&gt;");
        reveal_strlit("&quot;");
        reveal_strlit("&apos;");
        let init = escaped(s.drop_last());
        assert forall|i: int| 0 <= i < escaped(s).len() implies !is_markup(
            #[trigger] escaped(s)[i],
        ) by {
            if i < init.len() {
                assert(!is_markup(init[i]));
            } else {
                assert(escaped(s)[i] == escape_char(s.last())[i - init.len()]);
            }
        }
    }
}

/// The text that stands for a character in a file URI.
pub open spec fn uri_char(c: char) -> Seq<char> {
    if c == '\\' {
        "/"@
    } else if c == ' ' {
        "%20"@
    } else {
        seq![c]
    }
}

pub open spec fn uri_path(path: Seq<char>) -> Seq<char>
    decreases path.len(),
{
    if path.len() == 0 {
        seq![]
    } else {
        uri_path(path.drop_last()) + uri_char(path.last())
    }
}

/// The file URI of a path: forward slashes, and blanks encoded.
pub fn file_uri(path: &str) -> (out: String)
    ensures
        out@ == "file:///"@ + uri_path(path@),
{
    let chars = chars_of(path);
    let mut encoded: String = String::new();
    let mut i: usize = 0;
    assert(chars@.take(0) =~= Seq::<char>::empty());
    while i < chars.len()
        invariant
            i <= chars.len(),
            encoded@ == uri_path(chars@.take(i as int)),
        decreases chars.len() - i,
    {
        let c: char = chars[i];
        let ghost before = encoded@;
        if c == '\\' {
            put(&mut encoded, "/");
        } else if c == ' ' {
            put(&mut encoded, "%20");
        } else {
            encoded.push(c);
        }
        assert(encoded@ =~= before + uri_char(c));
        i += 1;
        assert(chars@.take(i as int).drop_last() =~= chars@.take(i - 1));
    }
    assert(chars@.take(chars@.len() as int) =~= chars@);
    concat2("file:///", encoded.as_str())
}

/// A file URI holds neither a backslash nor a blank.
pub proof fn uri_has_no_blank_or_backslash(path: Seq<char>)
    ensures
        forall|i: int|
            0 <= i < uri_path(path).len() ==> (#[trigger] uri_path(path)[i]) != ' ' && uri_path(
                path,
            )[i] != '\\',
    decreases path.len(),
{
    if path.len() > 0 {
        uri_has_no_blank_or_backslash(path.drop_last());
        reveal_strlit("/");
        reveal_strlit("%20");
        let init = uri_path(path.drop_last());
        assert forall|i: int| 0 <= i < uri_path(path).len() implies (#[trigger] uri_path(path)[i])
            != ' ' && uri_path(path)[i] != '\\' by {
            if i < init.len() {
                assert(init[i] != ' ' && init[i] != '\\');
            } else {
                assert(uri_path(path)[i] == uri_char(path.last())[i - init.len()]);
            }
        }
    }
}

/// The second line of the notification.
pub open spec fn toast_body(name: Seq<char>, copied: bool) -> Seq<char> {
    if copied {
        name + " \u{b7} copied to clipboard"@
    } else {
        name
    }
}

/// The notification's XML.
pub open spec fn toast_xml(path: Seq<char>, name: Seq<char>, copied: bool) -> Seq<char> {
    "<toast activationType=\"protocol\" launch=\""@ + escaped("file:///"@ + uri_path(path))
        + "\"><visual><binding template=\"ToastGeneric\"><text>"@ + escaped("Screenshot taken"@)
        + "</text><text>"@ + escaped(toast_body(name, copied))
        + "</text></binding></visual></toast>"@
}

/// The XML of the notification for a screenshot at `path`, whose file name is
/// `name`.
pub fn screenshot_toast(path: &str, name: &str, copied: bool) -> (xml: String)
    ensures
        xml@ == toast_xml(path@, name@, copied),
{
    let body: String = if copied {
        concat2(name, " \u{b7} copied to clipboard")
    } else {
        name.to_owned()
    };
    let launch = file_uri(path);
    let mut xml: String = "<toast activationType=\"protocol\" launch=\"".to_owned();
    put(&mut xml, xml_escape(launch.as_str()).as_str());
    put(&mut xml, "\"><visual><binding template=\"ToastGeneric\"><text>");
    put(&mut xml, xml_escape("Screenshot taken").as_str());
    put(&mut xml, "</text><text>");
    put(&mut xml, xml_escape(body.as_str()).as_str());
    put(&mut xml, "</text></binding></visual></toast>");
    xml
}

/// Escaping goes character by character, and only the five characters that mean something
/// in XML change.
pub proof fn escaping_is_character_by_character(a: Seq<char>, c: char)
    ensures
        escaped(a.push(c)) == escaped(a) + escaped(seq![c]),
        c == '&' ==> escaped(seq![c]) == seq!['&', 'a', 'm', 'p', ';'],
        c == '<' ==> escaped(seq![c]) == seq!['&', 'l', 't', ';'],
        c == '>' ==> escaped(seq![c]) == seq!['&', 'g', 't', ';'],
        c == '"' ==> escaped(seq![c]) == seq!['&', 'q', 'u', 'o', 't', ';'],
        c == '\'' ==> escaped(seq![c]) == seq!['&', 'a', 'p', 'o', 's', ';'],
        c != '&' && c != '<' && c != '>' && c != '"' && c != '\'' ==> escaped(seq![c]) == seq![c],
{
    reveal_with_fuel(escaped, 2);
    reveal_strlit("&amp;");
    reveal_strlit("&lt;");
    reveal_strlit("&gt;");
    reveal_strlit("&quot;");
    reveal_strlit("&apos;");
    assert(a.push(c).drop_last() =~= a);
    assert(seq![c].drop_last() =~= Seq::<char>::empty());
    assert(escaped(seq![c]) =~= escape_char(c));
    assert("&amp;"@ =~= seq!['&', 'a', 'm', 'p', ';']);
    assert("&lt;"@ =~= seq!['&', 'l', 't', ';']);
    assert("&gt;"@ =~= seq!['&', 'g', 't', ';']);
    assert("&quot;"@ =~= seq!['&', 'q', 'u', 'o', 't', ';']);
    assert("&apos;"@ =~= seq!['&', 'a', 'p', 'o', 's', ';']);
}

/// A path's URI goes character by character: a backslash becomes a slash, a blank its code,
/// and everything else stays.
pub proof fn uris_go_character_by_character(a: Seq<char>, c: char)
    ensures
        uri_path(a.push(c)) == uri_path(a) + uri_path(seq![c]),
        c == '\\' ==> uri_path(seq![c]) == seq!['/'],
        c == ' ' ==> uri_path(seq![c]) == seq!['%', '2', '0'],
        c != '\\' && c != ' ' ==> uri_path(seq![c]) == seq![c],
{
    reveal_with_fuel(uri_path, 2);
    reveal_strlit("/");
    reveal_strlit("%20");
    assert(a.push(c).drop_last() =~= a);
    assert(seq![c].drop_last() =~= Seq::<char>::empty());
    assert(uri_path(seq![c]) =~= uri_char(c));
    assert("/"@ =~= seq!['/']);
    assert("%20"@ =~= seq!['%', '2', '0']);
}

/// A notification opens the screenshot and names its file; that it was also copied is said
/// after the name and changes nothing else.
pub proof fn notifications_open_the_screenshot(path: Seq<char>, name: Seq<char>)
    ensures
        toast_xml(path, name, true) == toast_xml(path, name + " \u{b7} copied to clipboard"@, false),
        toast_xml(path, name, false) == "<toast activationType=\"protocol\" launch=\""@ + escaped(
            "file:///"@ + uri_path(path),
        ) + "\"><visual><binding template=\"ToastGeneric\"><text>"@ + escaped("Screenshot taken"@)
            + "</text><text>"@ + escaped(name) + "</text></binding></visual></toast>"@,
{
}

} // verus!
