//! Status-bar rendering: the shell triple and user templates.
use vstd::prelude::*;
use crate::models::SimpleHotlist;
use crate::text::{digit_char, int_decimal, int_to_text, nat_decimal};

verus! {

/// `s` with every occurrence of `from`, taken from the left and without
/// overlap, replaced by `to`.
pub open spec fn replace_all(s: Seq<char>, from: Seq<char>, to: Seq<char>) -> Seq<char>
    decreases s.len(),
{
    if from.len() == 0 || s.len() < from.len() {
        s
    } else if s.subrange(0, from.len() as int) == from {
        to + replace_all(s.skip(from.len() as int), from, to)
    } else {
        seq![s[0]] + replace_all(s.skip(1), from, to)
    }
}

/// Relies on `str::replace`: each non-overlapping match of `from`, found
/// from the left, is replaced by `to`.
#[verifier::external_body]
fn replace_text(s: &str, from: &str, to: &str) -> (r: String)
    requires
        from@.len() > 0,
    ensures
        r@ == replace_all(s@, from@, to@),
{
    s.replace(from, to)
}

/// The escape character.
pub open spec fn esc() -> Seq<char> {
    seq!['\x1b']
}

/// The template with its written escape sequences (`\e`, `\033`,
/// `\u001b`, `\x1b`, `\x1B`) turned into the escape character.
pub open spec fn decode_escapes(t: Seq<char>) -> Seq<char> {
    replace_all(
        replace_all(
            replace_all(
                replace_all(replace_all(t, "\\e"@, esc()), "\\033"@, esc()),
                "\\u001b"@,
                esc(),
            ),
            "\\x1b"@,
            esc(),
        ),
        "\\x1B"@,
        esc(),
    )
}

/// The template with escapes decoded first, then the placeholders
/// `{{priority_1}}`, `{{priority_2}}`, `{{priority_3}}` filled in.
pub open spec fn fill_template(t: Seq<char>, p1: Seq<char>, p2: Seq<char>, p3: Seq<char>) -> Seq<char> {
    replace_all(
        replace_all(
            replace_all(decode_escapes(t), "{{priority_1}}"@, p1),
            "{{priority_2}}"@,
            p2,
        ),
        "{{priority_3}}"@,
        p3,
    )
}

/// The placeholders a template may hold.
pub enum TemplatePriority {
    Priority1,
    Priority2,
    Priority3,
}

impl TemplatePriority {
    /// The placeholder's text.
    pub open spec fn spec_str(&self) -> Seq<char> {
        match self {
            TemplatePriority::Priority1 => "{{priority_1}}"@,
            TemplatePriority::Priority2 => "{{priority_2}}"@,
            TemplatePriority::Priority3 => "{{priority_3}}"@,
        }
    }

    /// The placeholder as written in a template.
    pub fn as_str(&self) -> (r: &'static str)
        ensures
            r@ == self.spec_str(),
            r@.len() > 0,
    {
        proof {
            reveal_strlit("{{priority_1}}");
            reveal_strlit("{{priority_2}}");
            reveal_strlit("{{priority_3}}");
        }
        match self {
            TemplatePriority::Priority1 => "{{priority_1}}",
            TemplatePriority::Priority2 => "{{priority_2}}",
            TemplatePriority::Priority3 => "{{priority_3}}",
        }
    }
}

/// Renders a template: escape sequences are decoded before the
/// placeholders are filled, so a filled-in value is never read as an
/// escape.
pub fn apply_template(template: &str, priority_1: &str, priority_2: &str, priority_3: &str) -> (r:
    String)
    ensures
        r@ == fill_template(template@, priority_1@, priority_2@, priority_3@),
{
    proof {
        reveal_strlit("\\e");
        reveal_strlit("\\033");
        reveal_strlit("\\u001b");
        reveal_strlit("\\x1b");
        reveal_strlit("\\x1B");
        reveal_strlit("\x1b");
    }
    let escape = "\x1b";
    assert(escape@ =~= esc());
    let s = replace_text(template, "\\e", escape);
    let s = replace_text(s.as_str(), "\\033", escape);
    let s = replace_text(s.as_str(), "\\u001b", escape);
    let s = replace_text(s.as_str(), "\\x1b", escape);
    let s = replace_text(s.as_str(), "\\x1B", escape);
    let s = replace_text(s.as_str(), TemplatePriority::Priority1.as_str(), priority_1);
    let s = replace_text(s.as_str(), TemplatePriority::Priority2.as_str(), priority_2);
    replace_text(s.as_str(), TemplatePriority::Priority3.as_str(), priority_3)
}

/// The shell rendering of counts: three decimals separated by spaces.
pub open spec fn shell_line(h: SimpleHotlist) -> Seq<char> {
    int_decimal(h.priority_1 as int) + seq![' '] + int_decimal(h.priority_2 as int) + seq![' ']
        + int_decimal(h.priority_3 as int)
}

/// Renders counts as `"<p1> <p2> <p3>"`.
pub fn render_shell(h: &SimpleHotlist) -> (r: String)
    ensures
        r@ == shell_line(*h),
{
    proof { reveal_strlit(" "); }
    let mut s = int_to_text(h.priority_1);
    s.append(" ");
    s.append(int_to_text(h.priority_2).as_str());
    s.append(" ");
    s.append(int_to_text(h.priority_3).as_str());
    assert(s@ =~= shell_line(*h));
    s
}

/// Fills a template with the counts, written in decimal.
pub fn render_template(template: &str, h: &SimpleHotlist) -> (r: String)
    ensures
        r@ == fill_template(
            template@,
            int_decimal(h.priority_1 as int),
            int_decimal(h.priority_2 as int),
            int_decimal(h.priority_3 as int),
        ),
{
    let p1 = int_to_text(h.priority_1);
    let p2 = int_to_text(h.priority_2);
    let p3 = int_to_text(h.priority_3);
    apply_template(template, p1.as_str(), p2.as_str(), p3.as_str())
}

/// No backslash is directly followed by `e`: the text holds no written
/// `\e` escape.
pub open spec fn no_written_escape(s: Seq<char>) -> bool {
    forall|i: int| 0 <= i < s.len() - 1 ==> !(s[i] == '\\' && #[trigger] s[i + 1] == 'e')
}

/// A non-empty value without backslash or `e`: filling it in cannot form `\e`.
pub open spec fn inert_value(t: Seq<char>) -> bool {
    t.len() > 0 && forall|i: int| 0 <= i < t.len() ==> t[i] != '\\' && #[trigger] t[i] != 'e'
}

proof fn lemma_replace_first_char(s: Seq<char>, from: Seq<char>, to: Seq<char>)
    requires
        from.len() > 0,
        to.len() > 0,
    ensures
        replace_all(s, from, to).len() > 0 ==> s.len() > 0 && (replace_all(s, from, to)[0] == s[0]
            || replace_all(s, from, to)[0] == to[0]),
{
}

proof fn lemma_replace_no_written_escape(s: Seq<char>, from: Seq<char>, to: Seq<char>)
    requires
        from.len() > 0,
        inert_value(to),
        no_written_escape(s) || from == seq!['\\', 'e'],
    ensures
        no_written_escape(replace_all(s, from, to)),
    decreases s.len(),
{
    let r = replace_all(s, from, to);
    if s.len() < from.len() {
    } else if s.subrange(0, from.len() as int) == from {
        let tail = s.skip(from.len() as int);
        if no_written_escape(s) {
            assert forall|i: int| 0 <= i < tail.len() - 1 implies !(tail[i] == '\\' && #[trigger] tail[i + 1] == 'e') by {
                assert(tail[i] == s[i + from.len()]);
                assert(tail[i + 1] == s[(i + from.len()) + 1]);
            }
        }
        lemma_replace_no_written_escape(tail, from, to);
        let rest = replace_all(tail, from, to);
        assert(r == to + rest);
        assert forall|i: int| 0 <= i < r.len() - 1 implies !(r[i] == '\\' && #[trigger] r[i + 1] == 'e') by {
            if i < to.len() {
                assert(r[i] == to[i]);
            } else {
                assert(r[i] == rest[i - to.len()]);
                assert(r[i + 1] == rest[(i - to.len()) + 1]);
            }
        }
    } else {
        let tail = s.skip(1);
        if no_written_escape(s) {
            assert forall|i: int| 0 <= i < tail.len() - 1 implies !(tail[i] == '\\' && #[trigger] tail[i + 1] == 'e') by {
                assert(tail[i] == s[i + 1]);
                assert(tail[i + 1] == s[(i + 1) + 1]);
            }
        }
        lemma_replace_no_written_escape(tail, from, to);
        lemma_replace_first_char(tail, from, to);
        let rest = replace_all(tail, from, to);
        assert(r == seq![s[0]] + rest);
        if s[0] == '\\' && rest.len() > 0 && rest[0] == 'e' {
            assert(rest[0] == tail[0]);
            assert(s[1] == 'e');
            if !no_written_escape(s) {
                assert(s.subrange(0, 2) =~= seq!['\\', 'e']);
            } else {
                assert(!(s[0] == '\\' && s[0int + 1] == 'e'));
            }
        }
        assert forall|i: int| 0 <= i < r.len() - 1 implies !(r[i] == '\\' && #[trigger] r[i + 1] == 'e') by {
            if i > 0 {
                assert(r[i] == rest[i - 1]);
                assert(r[i + 1] == rest[(i - 1) + 1]);
            } else {
                assert(r[1] == rest[0]);
            }
        }
    }
}

/// Whatever the template, filling it with values that hold no backslash
/// and no `e` (a count in decimal, or `-`) leaves no written `\e` escape:
/// each one became the escape character before the values went in.
pub proof fn lemma_no_written_escape_survives(t: Seq<char>, p1: Seq<char>, p2: Seq<char>, p3: Seq<char>)
    requires
        inert_value(p1),
        inert_value(p2),
        inert_value(p3),
    ensures
        no_written_escape(fill_template(t, p1, p2, p3)),
{
    reveal_strlit("\\e");
    reveal_strlit("\\033");
    reveal_strlit("\\u001b");
    reveal_strlit("\\x1b");
    reveal_strlit("\\x1B");
    reveal_strlit("{{priority_1}}");
    reveal_strlit("{{priority_2}}");
    reveal_strlit("{{priority_3}}");
    assert("\\e"@ =~= seq!['\\', 'e']);
    let e = esc();
    assert(inert_value(e));
    let s1 = replace_all(t, "\\e"@, e);
    lemma_replace_no_written_escape(t, "\\e"@, e);
    let s2 = replace_all(s1, "\\033"@, e);
    lemma_replace_no_written_escape(s1, "\\033"@, e);
    let s3 = replace_all(s2, "\\u001b"@, e);
    lemma_replace_no_written_escape(s2, "\\u001b"@, e);
    let s4 = replace_all(s3, "\\x1b"@, e);
    lemma_replace_no_written_escape(s3, "\\x1b"@, e);
    let s5 = replace_all(s4, "\\x1B"@, e);
    lemma_replace_no_written_escape(s4, "\\x1B"@, e);
    let s6 = replace_all(s5, "{{priority_1}}"@, p1);
    lemma_replace_no_written_escape(s5, "{{priority_1}}"@, p1);
    let s7 = replace_all(s6, "{{priority_2}}"@, p2);
    lemma_replace_no_written_escape(s6, "{{priority_2}}"@, p2);
    lemma_replace_no_written_escape(s7, "{{priority_3}}"@, p3);
}

proof fn lemma_nat_decimal_inert(n: nat)
    ensures
        inert_value(nat_decimal(n)),
    decreases n,
{
    if n >= 10 {
        lemma_nat_decimal_inert(n / 10);
        let a = nat_decimal(n / 10);
        let d = seq![digit_char(n % 10)];
        assert(nat_decimal(n) == a + d);
        assert forall|i: int| 0 <= i < (a + d).len() implies (a + d)[i] != '\\' && #[trigger] (a + d)[i] != 'e' by {
            if i < a.len() {
                assert((a + d)[i] == a[i]);
            } else {
                assert((a + d)[i] == d[i - a.len()]);
            }
        }
    }
}

/// Counts written in decimal, and `-`, are values that cannot form `\e`.
pub proof fn lemma_count_texts_inert(n: int)
    ensures
        inert_value(int_decimal(n)),
        inert_value("-"@),
{
    reveal_strlit("-");
    lemma_nat_decimal_inert(if n < 0 { (-n) as nat } else { n as nat });
    if n < 0 {
        let a = nat_decimal((-n) as nat);
        assert forall|i: int| 0 <= i < (seq!['-'] + a).len() implies (seq!['-'] + a)[i] != '\\' && #[trigger] (seq!['-'] + a)[i] != 'e' by {
            if i > 0 {
                assert((seq!['-'] + a)[i] == a[i - 1]);
            }
        }
    }
}

} // verus!
