use vstd::prelude::*;
use vstd::string::*;
use crate::post::Post;

verus! {

/// What one tag character contributes to the sidecar line: an underscore may
/// become a space, a parenthesis may be backslash-escaped, everything else
/// passes through.
pub open spec fn escaped_char(c: char, remove_underscores: bool, escape_parentheses: bool) -> Seq<
    char,
> {
    if remove_underscores && c == '_' {
        seq![' ']
    } else if escape_parentheses && c == '(' {
        seq!['\\', '(']
    } else if escape_parentheses && c == ')' {
        seq!['\\', ')']
    } else {
        seq![c]
    }
}

/// One whole tag, character by character.
pub open spec fn escaped_tag(tag: Seq<char>, remove_underscores: bool, escape_parentheses: bool) -> Seq<
    char,
>
    decreases tag.len(),
{
    if tag.len() == 0 {
        Seq::empty()
    } else {
        escaped_char(tag[0], remove_underscores, escape_parentheses) + escaped_tag(
            tag.drop_first(),
            remove_underscores,
            escape_parentheses,
        )
    }
}

/// The sidecar line for a whole tag list: the escaped tags joined by a comma
/// and a space, in the order the post gives them.
pub open spec fn tag_line(
    tags: Seq<Seq<char>>,
    remove_underscores: bool,
    escape_parentheses: bool,
) -> Seq<char>
    decreases tags.len(),
{
    if tags.len() == 0 {
        Seq::empty()
    } else if tags.len() == 1 {
        escaped_tag(tags[0], remove_underscores, escape_parentheses)
    } else {
        escaped_tag(tags[0], remove_underscores, escape_parentheses) + seq![',', ' '] + tag_line(
            tags.drop_first(),
            remove_underscores,
            escape_parentheses,
        )
    }
}

proof fn lemma_escaped_tag_push(tag: Seq<char>, c: char, ru: bool, ep: bool)
    ensures
        escaped_tag(tag.push(c), ru, ep) == escaped_tag(tag, ru, ep) + escaped_char(c, ru, ep),
    decreases tag.len(),
{
    if tag.len() == 0 {
        let p = tag.push(c);
        assert(p.len() == 1);
        assert(p[0] == c);
        assert(p.drop_first() =~= Seq::<char>::empty());
        assert(escaped_tag(p, ru, ep) == escaped_char(c, ru, ep) + escaped_tag(
            p.drop_first(),
            ru,
            ep,
        ));
        assert(escaped_tag(p.drop_first(), ru, ep) == Seq::<char>::empty());
        assert(escaped_tag(p, ru, ep) =~= escaped_char(c, ru, ep));
        assert(escaped_tag(tag, ru, ep) + escaped_char(c, ru, ep) =~= escaped_char(c, ru, ep));
    } else {
        assert(tag.push(c)[0] == tag[0]);
        assert(tag.push(c).drop_first() =~= tag.drop_first().push(c));
        lemma_escaped_tag_push(tag.drop_first(), c, ru, ep);
        assert(escaped_tag(tag.push(c), ru, ep) =~= escaped_tag(tag, ru, ep) + escaped_char(
            c,
            ru,
            ep,
        ));
    }
}

proof fn lemma_tag_line_push(tags: Seq<Seq<char>>, t: Seq<char>, ru: bool, ep: bool)
    ensures
        tag_line(tags.push(t), ru, ep) == if tags.len() == 0 {
            escaped_tag(t, ru, ep)
        } else {
            tag_line(tags, ru, ep) + seq![',', ' '] + escaped_tag(t, ru, ep)
        },
    decreases tags.len(),
{
    if tags.len() == 0 {
        assert(tags.push(t)[0] == t);
    } else {
        assert(tags.push(t).drop_first() =~= tags.drop_first().push(t));
        lemma_tag_line_push(tags.drop_first(), t, ru, ep);
        if tags.len() == 1 {
            assert(tag_line(tags.push(t), ru, ep) =~= tag_line(tags, ru, ep) + seq![',', ' ']
                + escaped_tag(t, ru, ep));
        } else {
            assert(tag_line(tags.push(t), ru, ep) =~= tag_line(tags, ru, ep) + seq![',', ' ']
                + escaped_tag(t, ru, ep));
        }
    }
}

/// Relies on `String: FromIterator<char>`: collecting characters yields the
/// string made of exactly those characters, in order.
#[verifier::external_body]
pub(crate) fn chars_to_string(cs: &Vec<char>) -> (r: String)
    ensures
        r@ == cs@,
{
    cs.iter().collect()
}

/// Append the escape of one tag to `out`.
fn push_escaped_tag(out: &mut Vec<char>, tag: &str, ru: bool, ep: bool)
    ensures
        final(out)@ == old(out)@ + escaped_tag(tag@, ru, ep),
{
    let n = tag.unicode_len();
    let mut j: usize = 0;
    while j < n
        invariant
            n == tag@.len(),
            j <= n,
            out@ == old(out)@ + escaped_tag(tag@.take(j as int), ru, ep),
        decreases n - j,
    {
        let c = tag.get_char(j);
        if ru && c == '_' {
            out.push(' ');
        } else if ep && c == '(' {
            out.push('\\');
            out.push('(');
        } else if ep && c == ')' {
            out.push('\\');
            out.push(')');
        } else {
            out.push(c);
        }
        proof {
            assert(tag@.take(j + 1) =~= tag@.take(j as int).push(tag@[j as int]));
            lemma_escaped_tag_push(tag@.take(j as int), tag@[j as int], ru, ep);
        }
        j = j + 1;
    }
    proof {
        assert(tag@.take(n as int) =~= tag@);
    }
}

/// The text of a post's tag sidecar file: the tags joined by `", "`, in the
/// order the post gives them, with underscores optionally turned into
/// spaces and parentheses optionally backslash-escaped.
pub fn get_tag_string(post: &Post, remove_underscores: bool, escape_parentheses: bool) -> (r:
    String)
    ensures
        r@ == tag_line(post.tags.deep_view(), remove_underscores, escape_parentheses),
{
    let mut out: Vec<char> = Vec::new();
    let mut i: usize = 0;
    while i < post.tags.len()
        invariant
            i <= post.tags.len(),
            out@ == tag_line(
                post.tags.deep_view().take(i as int),
                remove_underscores,
                escape_parentheses,
            ),
        decreases post.tags.len() - i,
    {
        if i > 0 {
            out.push(',');
            out.push(' ');
        }
        push_escaped_tag(&mut out, post.tags[i].as_str(), remove_underscores, escape_parentheses);
        proof {
            let tv = post.tags.deep_view();
            assert(tv.take(i + 1) =~= tv.take(i as int).push(tv[i as int]));
            assert(tv[i as int] == post.tags[i as int]@);
            lemma_tag_line_push(
                tv.take(i as int),
                tv[i as int],
                remove_underscores,
                escape_parentheses,
            );
        }
        i = i + 1;
    }
    proof {
        assert(post.tags.deep_view().take(post.tags.len() as int) =~= post.tags.deep_view());
    }
    chars_to_string(&out)
}

} // verus!
