//! Classification of clipboard text (url / code / text) and the short
//! preview shown in the history list.
use crate::text::{
    chars_of, contains, contains_chars, is_control, is_control_char, lowercase_of, push_char,
    starts_with, starts_with_chars, string_from_chars, to_lowercase, trim, trim_chars,
};
use vstd::prelude::*;
use vstd::utf8::encode_utf8;

verus! {

/// The markers of which two or more make a piece of text look like code.
pub open spec fn code_indicators() -> Seq<Seq<char>> {
    seq![
        "function "@, "const "@, "let "@, "var "@, "import "@, "export "@, "class "@,
        "def "@, "fn "@, "pub "@, "async "@, "await "@, "return "@, "if ("@, "for ("@,
        "while ("@, "=>"@, "->"@, "();"@,
    ]
}

/// How many of `markers` occur in `hay`.
pub open spec fn count_occurring(hay: Seq<char>, markers: Seq<Seq<char>>) -> nat
    decreases markers.len(),
{
    if markers.len() == 0 {
        0
    } else {
        count_occurring(hay, markers.drop_last()) + if contains(hay, markers.last()) {
            1nat
        } else {
            0nat
        }
    }
}

/// Text looks like code when its lower case holds at least two of the code
/// indicators.
pub open spec fn looks_like_code_spec(text: Seq<char>) -> bool {
    count_occurring(lowercase_of(text), code_indicators()) >= 2
}

/// The type tag of a piece of plain text: "url" when the trimmed text starts
/// with a web or ftp scheme, "code" when it looks like code, else "text".
pub open spec fn text_type(text: Seq<char>) -> Seq<char> {
    let t = trim(text);
    if starts_with(t, "http://"@) || starts_with(t, "https://"@) || starts_with(t, "ftp://"@) {
        "url"@
    } else if looks_like_code_spec(t) {
        "code"@
    } else {
        "text"@
    }
}

/// A character that the preview keeps: any non-control character, and the
/// line feed and tab.
pub open spec fn kept_in_preview(c: char) -> bool {
    !is_control_char(c) || c == '\n' || c == '\t'
}

/// `s` without the characters that the preview drops, order kept.
pub open spec fn printable(s: Seq<char>) -> Seq<char>
    decreases s.len(),
{
    if s.len() == 0 {
        Seq::empty()
    } else {
        printable(s.drop_last()) + if kept_in_preview(s.last()) {
            seq![s.last()]
        } else {
            Seq::empty()
        }
    }
}

/// The number of characters a preview is cut to.
pub open spec fn preview_chars() -> int {
    500
}

/// The first 500 characters of `text` (all of it when it is shorter).
pub open spec fn first_chars(text: Seq<char>) -> Seq<char> {
    if text.len() <= preview_chars() {
        text
    } else {
        text.take(preview_chars())
    }
}

/// The preview of `text`: its first 500 characters without control
/// characters (line feeds and tabs kept), followed by "..." when the text is
/// longer than 500 bytes in UTF-8.
pub open spec fn text_preview(text: Seq<char>) -> Seq<char> {
    let p = printable(first_chars(text));
    if encode_utf8(text).len() > 500 {
        p + "..."@
    } else {
        p
    }
}

/// Whether `text` looks like code.
pub fn looks_like_code(text: &str) -> (b: bool)
    ensures
        b == looks_like_code_spec(text@),
{
    let indicators: [&str; 19] = [
        "function ",
        "const ",
        "let ",
        "var ",
        "import ",
        "export ",
        "class ",
        "def ",
        "fn ",
        "pub ",
        "async ",
        "await ",
        "return ",
        "if (",
        "for (",
        "while (",
        "=>",
        "->",
        "();",
    ];
    let ghost markers = code_indicators();
    assert(forall|j: int| 0 <= j < 19 ==> #[trigger] indicators@[j]@ == markers[j]);
    let lower = to_lowercase(text);
    let hay = chars_of(lower.as_str());
    let mut count: usize = 0;
    let mut i: usize = 0;
    while i < 19
        invariant
            i <= 19,
            markers == code_indicators(),
            markers.len() == 19,
            forall|j: int| 0 <= j < 19 ==> #[trigger] indicators@[j]@ == markers[j],
            hay@ == lowercase_of(text@),
            count == count_occurring(hay@, markers.take(i as int)),
            count <= i,
        decreases 19 - i,
    {
        let needle = chars_of(indicators[i]);
        assert(markers.take(i + 1).drop_last() == markers.take(i as int));
        assert(markers.take(i + 1).last() == markers[i as int]);
        if contains_chars(&hay, &needle) {
            count = count + 1;
        }
        i = i + 1;
    }
    assert(markers.take(19) == markers);
    count >= 2
}

/// The type tag of a piece of plain text ("url", "code" or "text").
pub fn detect_text_type(text: &str) -> (r: &'static str)
    ensures
        r@ == text_type(text@),
{
    let all = chars_of(text);
    let trimmed = trim_chars(&all);
    if starts_with_chars(&trimmed, &chars_of("http://")) || starts_with_chars(
        &trimmed,
        &chars_of("https://"),
    ) || starts_with_chars(&trimmed, &chars_of("ftp://")) {
        return "url";
    }
    let trimmed_str = string_from_chars(&trimmed);
    if looks_like_code(trimmed_str.as_str()) {
        return "code";
    }
    "text"
}

/// The preview of a piece of text shown in the history list.
pub fn create_text_preview(text: &str) -> (r: String)
    ensures
        r@ == text_preview(text@),
{
    let chars = chars_of(text);
    let limit: usize = if chars.len() <= 500 {
        chars.len()
    } else {
        500
    };
    let ghost first = first_chars(text@);
    assert(first == chars@.take(limit as int));
    let mut out = String::new();
    let mut i: usize = 0;
    while i < limit
        invariant
            i <= limit <= chars.len(),
            first == chars@.take(limit as int),
            out@ == printable(chars@.take(i as int)),
        decreases limit - i,
    {
        let c = chars[i];
        assert(chars@.take(i + 1).drop_last() == chars@.take(i as int));
        assert(chars@.take(i + 1).last() == c);
        if !is_control(c) || c == '\n' || c == '\t' {
            push_char(&mut out, c);
        }
        i = i + 1;
    }
    assert(out@ == printable(first));
    if text.as_bytes().len() > 500 {
        out.append("...");
    }
    out
}

/// How many of `markers` occur in `hay` is at least one when some position
/// of `markers` holds text that occurs.
proof fn lemma_count_one(hay: Seq<char>, markers: Seq<Seq<char>>, a: int)
    requires
        0 <= a < markers.len(),
        contains(hay, markers[a]),
    ensures
        count_occurring(hay, markers) >= 1,
    decreases markers.len(),
{
    if a < markers.len() - 1 {
        lemma_count_one(hay, markers.drop_last(), a);
    }
}

/// How many of `markers` occur in `hay` is at least two when two different
/// positions of `markers` hold text that occurs.
proof fn lemma_count_two(hay: Seq<char>, markers: Seq<Seq<char>>, a: int, b: int)
    requires
        0 <= a < b < markers.len(),
        contains(hay, markers[a]),
        contains(hay, markers[b]),
    ensures
        count_occurring(hay, markers) >= 2,
    decreases markers.len(),
{
    if b < markers.len() - 1 {
        lemma_count_two(hay, markers.drop_last(), a, b);
    } else {
        lemma_count_one(hay, markers.drop_last(), a);
    }
}

/// Text whose trimmed lower case holds two different code markers of the
/// list "function ", "const ", "let ", "var ", "import ", "export ",
/// "class ", "def ", "fn ", "pub ", "async ", "await ", "return ", "if (",
/// "for (", "while (", "=>", "->", "();" is classified "code", unless it
/// starts with a web or ftp scheme.
pub proof fn law_two_code_markers_make_code(text: Seq<char>, m1: Seq<char>, m2: Seq<char>)
    requires
        m1 != m2,
        (m1 == "function "@ || m1 == "const "@ || m1 == "let "@ || m1 == "var "@ ||
            m1 == "import "@ || m1 == "export "@ || m1 == "class "@ || m1 == "def "@ ||
            m1 == "fn "@ || m1 == "pub "@ || m1 == "async "@ || m1 == "await "@ ||
            m1 == "return "@ || m1 == "if ("@ || m1 == "for ("@ || m1 == "while ("@ ||
            m1 == "=>"@ || m1 == "->"@ || m1 == "();"@),
        (m2 == "function "@ || m2 == "const "@ || m2 == "let "@ || m2 == "var "@ ||
            m2 == "import "@ || m2 == "export "@ || m2 == "class "@ || m2 == "def "@ ||
            m2 == "fn "@ || m2 == "pub "@ || m2 == "async "@ || m2 == "await "@ ||
            m2 == "return "@ || m2 == "if ("@ || m2 == "for ("@ || m2 == "while ("@ ||
            m2 == "=>"@ || m2 == "->"@ || m2 == "();"@),
        contains(lowercase_of(trim(text)), m1),
        contains(lowercase_of(trim(text)), m2),
        !starts_with(trim(text), "http://"@),
        !starts_with(trim(text), "https://"@),
        !starts_with(trim(text), "ftp://"@),
    ensures
        text_type(text) == "code"@,
{
    let ms = code_indicators();
    assert(ms.len() == 19);
    assert(exists|i: int| 0 <= i < 19 && #[trigger] ms[i] == m1) by {
        assert(ms[0] == "function "@);
        assert(ms[1] == "const "@);
        assert(ms[2] == "let "@);
        assert(ms[3] == "var "@);
        assert(ms[4] == "import "@);
        assert(ms[5] == "export "@);
        assert(ms[6] == "class "@);
        assert(ms[7] == "def "@);
        assert(ms[8] == "fn "@);
        assert(ms[9] == "pub "@);
        assert(ms[10] == "async "@);
        assert(ms[11] == "await "@);
        assert(ms[12] == "return "@);
        assert(ms[13] == "if ("@);
        assert(ms[14] == "for ("@);
        assert(ms[15] == "while ("@);
        assert(ms[16] == "=>"@);
        assert(ms[17] == "->"@);
        assert(ms[18] == "();"@);
    }
    assert(exists|i: int| 0 <= i < 19 && #[trigger] ms[i] == m2) by {
        assert(ms[0] == "function "@);
        assert(ms[1] == "const "@);
        assert(ms[2] == "let "@);
        assert(ms[3] == "var "@);
        assert(ms[4] == "import "@);
        assert(ms[5] == "export "@);
        assert(ms[6] == "class "@);
        assert(ms[7] == "def "@);
        assert(ms[8] == "fn "@);
        assert(ms[9] == "pub "@);
        assert(ms[10] == "async "@);
        assert(ms[11] == "await "@);
        assert(ms[12] == "return "@);
        assert(ms[13] == "if ("@);
        assert(ms[14] == "for ("@);
        assert(ms[15] == "while ("@);
        assert(ms[16] == "=>"@);
        assert(ms[17] == "->"@);
        assert(ms[18] == "();"@);
    }
    let i = choose|i: int| 0 <= i < 19 && #[trigger] ms[i] == m1;
    let j = choose|j: int| 0 <= j < 19 && #[trigger] ms[j] == m2;
    let hay = lowercase_of(trim(text));
    if i < j {
        lemma_count_two(hay, ms, i, j);
    } else {
        lemma_count_two(hay, ms, j, i);
    }
}

/// Text whose trimmed lower case holds at most one of the code markers
/// "function ", "const ", "let ", "var ", "import ", "export ", "class ",
/// "def ", "fn ", "pub ", "async ", "await ", "return ", "if (", "for (",
/// "while (", "=>", "->", "();" (every marker but `m0` is absent) is not
/// classified "code": it is "url" or "text".
pub proof fn law_fewer_than_two_code_markers_are_not_code(text: Seq<char>, m0: Seq<char>)
    requires
        "function "@ == m0 || !contains(lowercase_of(trim(text)), "function "@),
        "const "@ == m0 || !contains(lowercase_of(trim(text)), "const "@),
        "let "@ == m0 || !contains(lowercase_of(trim(text)), "let "@),
        "var "@ == m0 || !contains(lowercase_of(trim(text)), "var "@),
        "import "@ == m0 || !contains(lowercase_of(trim(text)), "import "@),
        "export "@ == m0 || !contains(lowercase_of(trim(text)), "export "@),
        "class "@ == m0 || !contains(lowercase_of(trim(text)), "class "@),
        "def "@ == m0 || !contains(lowercase_of(trim(text)), "def "@),
        "fn "@ == m0 || !contains(lowercase_of(trim(text)), "fn "@),
        "pub "@ == m0 || !contains(lowercase_of(trim(text)), "pub "@),
        "async "@ == m0 || !contains(lowercase_of(trim(text)), "async "@),
        "await "@ == m0 || !contains(lowercase_of(trim(text)), "await "@),
        "return "@ == m0 || !contains(lowercase_of(trim(text)), "return "@),
        "if ("@ == m0 || !contains(lowercase_of(trim(text)), "if ("@),
        "for ("@ == m0 || !contains(lowercase_of(trim(text)), "for ("@),
        "while ("@ == m0 || !contains(lowercase_of(trim(text)), "while ("@),
        "=>"@ == m0 || !contains(lowercase_of(trim(text)), "=>"@),
        "->"@ == m0 || !contains(lowercase_of(trim(text)), "->"@),
        "();"@ == m0 || !contains(lowercase_of(trim(text)), "();"@),
    ensures
        text_type(text) == "url"@ || text_type(text) == "text"@,
{
    reveal_strlit("function ");
    reveal_strlit("const ");
    reveal_strlit("let ");
    reveal_strlit("var ");
    reveal_strlit("import ");
    reveal_strlit("export ");
    reveal_strlit("class ");
    reveal_strlit("def ");
    reveal_strlit("fn ");
    reveal_strlit("pub ");
    reveal_strlit("async ");
    reveal_strlit("await ");
    reveal_strlit("return ");
    reveal_strlit("if (");
    reveal_strlit("for (");
    reveal_strlit("while (");
    reveal_strlit("=>");
    reveal_strlit("->");
    reveal_strlit("();");
    let ms = code_indicators();
    let hay = lowercase_of(trim(text));
    assert(ms[0] == "function "@);
    assert(ms[1] == "const "@);
    assert(ms[2] == "let "@);
    assert(ms[3] == "var "@);
    assert(ms[4] == "import "@);
    assert(ms[5] == "export "@);
    assert(ms[6] == "class "@);
    assert(ms[7] == "def "@);
    assert(ms[8] == "fn "@);
    assert(ms[9] == "pub "@);
    assert(ms[10] == "async "@);
    assert(ms[11] == "await "@);
    assert(ms[12] == "return "@);
    assert(ms[13] == "if ("@);
    assert(ms[14] == "for ("@);
    assert(ms[15] == "while ("@);
    assert(ms[16] == "=>"@);
    assert(ms[17] == "->"@);
    assert(ms[18] == "();"@);
    assert(ms.take(0).len() == 0);
    assert(count_occurring(hay, ms.take(0)) == 0);
    assert(ms.take(1).drop_last() == ms.take(0));
    assert(ms.take(1).last() == ms[0]);
    assert(ms.take(2).drop_last() == ms.take(1));
    assert(ms.take(2).last() == ms[1]);
    assert(ms.take(3).drop_last() == ms.take(2));
    assert(ms.take(3).last() == ms[2]);
    assert(ms.take(4).drop_last() == ms.take(3));
    assert(ms.take(4).last() == ms[3]);
    assert(ms.take(5).drop_last() == ms.take(4));
    assert(ms.take(5).last() == ms[4]);
    assert(ms.take(6).drop_last() == ms.take(5));
    assert(ms.take(6).last() == ms[5]);
    assert(ms.take(7).drop_last() == ms.take(6));
    assert(ms.take(7).last() == ms[6]);
    assert(ms.take(8).drop_last() == ms.take(7));
    assert(ms.take(8).last() == ms[7]);
    assert(ms.take(9).drop_last() == ms.take(8));
    assert(ms.take(9).last() == ms[8]);
    assert(ms.take(10).drop_last() == ms.take(9));
    assert(ms.take(10).last() == ms[9]);
    assert(ms.take(11).drop_last() == ms.take(10));
    assert(ms.take(11).last() == ms[10]);
    assert(ms.take(12).drop_last() == ms.take(11));
    assert(ms.take(12).last() == ms[11]);
    assert(ms.take(13).drop_last() == ms.take(12));
    assert(ms.take(13).last() == ms[12]);
    assert(ms.take(14).drop_last() == ms.take(13));
    assert(ms.take(14).last() == ms[13]);
    assert(ms.take(15).drop_last() == ms.take(14));
    assert(ms.take(15).last() == ms[14]);
    assert(ms.take(16).drop_last() == ms.take(15));
    assert(ms.take(16).last() == ms[15]);
    assert(ms.take(17).drop_last() == ms.take(16));
    assert(ms.take(17).last() == ms[16]);
    assert(ms.take(18).drop_last() == ms.take(17));
    assert(ms.take(18).last() == ms[17]);
    assert(ms.take(19).drop_last() == ms.take(18));
    assert(ms.take(19).last() == ms[18]);
    assert(ms.take(19) == ms);
    assert("function "@.len() == 9 && "function "@[0] == 'f' && "function "@[1] == 'u');
    assert("const "@.len() == 6 && "const "@[0] == 'c' && "const "@[1] == 'o');
    assert("let "@.len() == 4 && "let "@[0] == 'l' && "let "@[1] == 'e');
    assert("var "@.len() == 4 && "var "@[0] == 'v' && "var "@[1] == 'a');
    assert("import "@.len() == 7 && "import "@[0] == 'i' && "import "@[1] == 'm');
    assert("export "@.len() == 7 && "export "@[0] == 'e' && "export "@[1] == 'x');
    assert("class "@.len() == 6 && "class "@[0] == 'c' && "class "@[1] == 'l');
    assert("def "@.len() == 4 && "def "@[0] == 'd' && "def "@[1] == 'e');
    assert("fn "@.len() == 3 && "fn "@[0] == 'f' && "fn "@[1] == 'n');
    assert("pub "@.len() == 4 && "pub "@[0] == 'p' && "pub "@[1] == 'u');
    assert("async "@.len() == 6 && "async "@[0] == 'a' && "async "@[1] == 's');
    assert("await "@.len() == 6 && "await "@[0] == 'a' && "await "@[1] == 'w');
    assert("return "@.len() == 7 && "return "@[0] == 'r' && "return "@[1] == 'e');
    assert("if ("@.len() == 4 && "if ("@[0] == 'i' && "if ("@[1] == 'f');
    assert("for ("@.len() == 5 && "for ("@[0] == 'f' && "for ("@[1] == 'o');
    assert("while ("@.len() == 7 && "while ("@[0] == 'w' && "while ("@[1] == 'h');
    assert("=>"@.len() == 2 && "=>"@[0] == '=' && "=>"@[1] == '>');
    assert("->"@.len() == 2 && "->"@[0] == '-' && "->"@[1] == '>');
    assert("();"@.len() == 3 && "();"@[0] == '(' && "();"@[1] == ')');
    assert(count_occurring(hay, ms.take(1)) <= 1 && (count_occurring(hay, ms.take(1)) == 1 ==> (m0 == "function "@)));
    assert(count_occurring(hay, ms.take(2)) <= 1 && (count_occurring(hay, ms.take(2)) == 1 ==> (m0 == "function "@ || m0 == "const "@)));
    assert(count_occurring(hay, ms.take(3)) <= 1 && (count_occurring(hay, ms.take(3)) == 1 ==> (m0 == "function "@ || m0 == "const "@ || m0 == "let "@)));
    assert(count_occurring(hay, ms.take(4)) <= 1 && (count_occurring(hay, ms.take(4)) == 1 ==> (m0 == "function "@ || m0 == "const "@ || m0 == "let "@ || m0 == "var "@)));
    assert(count_occurring(hay, ms.take(5)) <= 1 && (count_occurring(hay, ms.take(5)) == 1 ==> (m0 == "function "@ || m0 == "const "@ || m0 == "let "@ || m0 == "var "@ || m0 == "import "@)));
    assert(count_occurring(hay, ms.take(6)) <= 1 && (count_occurring(hay, ms.take(6)) == 1 ==> (m0 == "function "@ || m0 == "const "@ || m0 == "let "@ || m0 == "var "@ || m0 == "import "@ || m0 == "export "@)));
    assert(count_occurring(hay, ms.take(7)) <= 1 && (count_occurring(hay, ms.take(7)) == 1 ==> (m0 == "function "@ || m0 == "const "@ || m0 == "let "@ || m0 == "var "@ || m0 == "import "@ || m0 == "export "@ || m0 == "class "@)));
    assert(count_occurring(hay, ms.take(8)) <= 1 && (count_occurring(hay, ms.take(8)) == 1 ==> (m0 == "function "@ || m0 == "const "@ || m0 == "let "@ || m0 == "var "@ || m0 == "import "@ || m0 == "export "@ || m0 == "class "@ || m0 == "def "@)));
    assert(count_occurring(hay, ms.take(9)) <= 1 && (count_occurring(hay, ms.take(9)) == 1 ==> (m0 == "function "@ || m0 == "const "@ || m0 == "let "@ || m0 == "var "@ || m0 == "import "@ || m0 == "export "@ || m0 == "class "@ || m0 == "def "@ || m0 == "fn "@)));
    assert(count_occurring(hay, ms.take(10)) <= 1 && (count_occurring(hay, ms.take(10)) == 1 ==> (m0 == "function "@ || m0 == "const "@ || m0 == "let "@ || m0 == "var "@ || m0 == "import "@ || m0 == "export "@ || m0 == "class "@ || m0 == "def "@ || m0 == "fn "@ || m0 == "pub "@)));
    assert(count_occurring(hay, ms.take(11)) <= 1 && (count_occurring(hay, ms.take(11)) == 1 ==> (m0 == "function "@ || m0 == "const "@ || m0 == "let "@ || m0 == "var "@ || m0 == "import "@ || m0 == "export "@ || m0 == "class "@ || m0 == "def "@ || m0 == "fn "@ || m0 == "pub "@ || m0 == "async "@)));
    assert(count_occurring(hay, ms.take(12)) <= 1 && (count_occurring(hay, ms.take(12)) == 1 ==> (m0 == "function "@ || m0 == "const "@ || m0 == "let "@ || m0 == "var "@ || m0 == "import "@ || m0 == "export "@ || m0 == "class "@ || m0 == "def "@ || m0 == "fn "@ || m0 == "pub "@ || m0 == "async "@ || m0 == "await "@)));
    assert(count_occurring(hay, ms.take(13)) <= 1 && (count_occurring(hay, ms.take(13)) == 1 ==> (m0 == "function "@ || m0 == "const "@ || m0 == "let "@ || m0 == "var "@ || m0 == "import "@ || m0 == "export "@ || m0 == "class "@ || m0 == "def "@ || m0 == "fn "@ || m0 == "pub "@ || m0 == "async "@ || m0 == "await "@ || m0 == "return "@)));
    assert(count_occurring(hay, ms.take(14)) <= 1 && (count_occurring(hay, ms.take(14)) == 1 ==> (m0 == "function "@ || m0 == "const "@ || m0 == "let "@ || m0 == "var "@ || m0 == "import "@ || m0 == "export "@ || m0 == "class "@ || m0 == "def "@ || m0 == "fn "@ || m0 == "pub "@ || m0 == "async "@ || m0 == "await "@ || m0 == "return "@ || m0 == "if ("@)));
    assert(count_occurring(hay, ms.take(15)) <= 1 && (count_occurring(hay, ms.take(15)) == 1 ==> (m0 == "function "@ || m0 == "const "@ || m0 == "let "@ || m0 == "var "@ || m0 == "import "@ || m0 == "export "@ || m0 == "class "@ || m0 == "def "@ || m0 == "fn "@ || m0 == "pub "@ || m0 == "async "@ || m0 == "await "@ || m0 == "return "@ || m0 == "if ("@ || m0 == "for ("@)));
    assert(count_occurring(hay, ms.take(16)) <= 1 && (count_occurring(hay, ms.take(16)) == 1 ==> (m0 == "function "@ || m0 == "const "@ || m0 == "let "@ || m0 == "var "@ || m0 == "import "@ || m0 == "export "@ || m0 == "class "@ || m0 == "def "@ || m0 == "fn "@ || m0 == "pub "@ || m0 == "async "@ || m0 == "await "@ || m0 == "return "@ || m0 == "if ("@ || m0 == "for ("@ || m0 == "while ("@)));
    assert(count_occurring(hay, ms.take(17)) <= 1 && (count_occurring(hay, ms.take(17)) == 1 ==> (m0 == "function "@ || m0 == "const "@ || m0 == "let "@ || m0 == "var "@ || m0 == "import "@ || m0 == "export "@ || m0 == "class "@ || m0 == "def "@ || m0 == "fn "@ || m0 == "pub "@ || m0 == "async "@ || m0 == "await "@ || m0 == "return "@ || m0 == "if ("@ || m0 == "for ("@ || m0 == "while ("@ || m0 == "=>"@)));
    assert(count_occurring(hay, ms.take(18)) <= 1 && (count_occurring(hay, ms.take(18)) == 1 ==> (m0 == "function "@ || m0 == "const "@ || m0 == "let "@ || m0 == "var "@ || m0 == "import "@ || m0 == "export "@ || m0 == "class "@ || m0 == "def "@ || m0 == "fn "@ || m0 == "pub "@ || m0 == "async "@ || m0 == "await "@ || m0 == "return "@ || m0 == "if ("@ || m0 == "for ("@ || m0 == "while ("@ || m0 == "=>"@ || m0 == "->"@)));
    assert(count_occurring(hay, ms.take(19)) <= 1 && (count_occurring(hay, ms.take(19)) == 1 ==> (m0 == "function "@ || m0 == "const "@ || m0 == "let "@ || m0 == "var "@ || m0 == "import "@ || m0 == "export "@ || m0 == "class "@ || m0 == "def "@ || m0 == "fn "@ || m0 == "pub "@ || m0 == "async "@ || m0 == "await "@ || m0 == "return "@ || m0 == "if ("@ || m0 == "for ("@ || m0 == "while ("@ || m0 == "=>"@ || m0 == "->"@ || m0 == "();"@)));
    assert(count_occurring(hay, ms) <= 1);
}

} // verus!
