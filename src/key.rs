//! Cache keys: the command names a directory, the argument vector an entry in it.
use vstd::prelude::*;

verus! {

/// What base64's URL-safe engine makes of a text's UTF-8 bytes.
pub uninterp spec fn base64_of(text: Seq<char>) -> Seq<char>;

/// A character of the URL-safe base64 alphabet (`A-Z a-z 0-9 - _`), or the padding `=`.
pub open spec fn is_url_safe_base64_char(c: char) -> bool {
    ||| 'A' <= c <= 'Z'
    ||| 'a' <= c <= 'z'
    ||| '0' <= c <= '9'
    ||| c == '-'
    ||| c == '_'
    ||| c == '='
}

/// Relies on `base64::engine::general_purpose::URL_SAFE` (URL-safe alphabet,
/// padded): its output depends on the input bytes alone, and holds only
/// characters of that alphabet and the padding.
#[verifier::external_body]
fn base64_encode(text: &str) -> (r: String)
    ensures
        r@ == base64_of(text@),
        forall|i: int| 0 <= i < r@.len() ==> is_url_safe_base64_char(#[trigger] r@[i]),
{
    base64::Engine::encode(&base64::engine::general_purpose::URL_SAFE, text)
}

/// The texts of an argument vector.
pub open spec fn texts(args: Seq<String>) -> Seq<Seq<char>> {
    args.map_values(|a: String| a@)
}

/// The arguments joined by single newlines.
pub open spec fn joined_args(args: Seq<Seq<char>>) -> Seq<char>
    decreases args.len(),
{
    if args.len() == 0 {
        Seq::empty()
    } else if args.len() == 1 {
        args[0]
    } else {
        joined_args(args.drop_last()) + seq!['\n'] + args.last()
    }
}

/// The key of a command's directory.
pub open spec fn dir_key(command: Seq<char>) -> Seq<char> {
    base64_of(command)
}

/// The key of an argument vector's entry within its command's directory.
pub open spec fn entry_key(args: Seq<Seq<char>>) -> Seq<char> {
    base64_of(joined_args(args))
}

/// The text can stand as one component of a path: it holds no `/`.
pub open spec fn is_path_component(s: Seq<char>) -> bool {
    forall|i: int| 0 <= i < s.len() ==> #[trigger] s[i] != '/'
}

pub open spec fn has_no_newline(s: Seq<char>) -> bool {
    forall|i: int| 0 <= i < s.len() ==> #[trigger] s[i] != '\n'
}

/// Joins the arguments with a newline between each two.
pub fn join_args(args: &Vec<String>) -> (r: String)
    ensures
        r@ == joined_args(texts(args@)),
{
    let ghost all = texts(args@);
    let mut out = String::new();
    let mut i: usize = 0;
    while i < args.len()
        invariant
            i <= args.len(),
            all == texts(args@),
            out@ == joined_args(all.take(i as int)),
        decreases args.len() - i,
    {
        let ghost before = out@;
        if i > 0 {
            proof {
                reveal_strlit("\n");
            }
            out.append("\n");
        }
        out.append(args[i].as_str());
        proof {
            let next = all.take(i + 1);
            assert(next.drop_last() =~= all.take(i as int));
            if i == 0 {
                assert(before =~= Seq::<char>::empty());
                assert(out@ =~= next[0]);
            } else {
                assert(out@ =~= before + seq!['\n'] + next.last());
            }
        }
        i += 1;
    }
    assert(all.take(args.len() as int) =~= all);
    out
}

/// The directory key of a command: the base64 text of its name.
pub fn encode_command(command: &str) -> (r: String)
    ensures
        r@ == dir_key(command@),
        is_path_component(r@),
{
    base64_encode(command)
}

/// The entry key of an argument vector: the base64 text of the arguments joined by newlines.
pub fn encode_command_args(command_args: &Vec<String>) -> (r: String)
    ensures
        r@ == entry_key(texts(command_args@)),
        is_path_component(r@),
{
    let joined = join_args(command_args);
    base64_encode(joined.as_str())
}

/// Keying is deterministic: the same command and arguments give the same keys.
pub proof fn lemma_keys_deterministic(
    command: Seq<char>,
    args: Seq<Seq<char>>,
    command2: Seq<char>,
    args2: Seq<Seq<char>>,
)
    requires
        command == command2,
        args == args2,
    ensures
        dir_key(command) == dir_key(command2),
        entry_key(args) == entry_key(args2),
{
}

proof fn lemma_split_at_last_newline(p: Seq<char>, x: Seq<char>, q: Seq<char>, y: Seq<char>)
    requires
        has_no_newline(x),
        has_no_newline(y),
        p + seq!['\n'] + x == q + seq!['\n'] + y,
    ensures
        p == q,
        x == y,
{
    let s = p + seq!['\n'] + x;
    let t = q + seq!['\n'] + y;
    if x.len() < y.len() {
        let k = s.len() - 1 - x.len();
        assert(s[k] == '\n');
        assert(t[k] == y[y.len() - 1 - x.len()]);
    } else if y.len() < x.len() {
        let k = t.len() - 1 - y.len();
        assert(t[k] == '\n');
        assert(s[k] == x[x.len() - 1 - y.len()]);
    }
    assert(p =~= s.subrange(0, p.len() as int));
    assert(q =~= t.subrange(0, q.len() as int));
    assert(x =~= s.subrange(p.len() as int + 1, s.len() as int));
    assert(y =~= t.subrange(q.len() as int + 1, t.len() as int));
}

/// Argument vectors of one length whose arguments hold no newline join to the
/// same text only when they are equal; in particular two orders of the same
/// arguments that differ give different texts to encode.
pub proof fn lemma_distinct_args_join_distinctly(a: Seq<Seq<char>>, b: Seq<Seq<char>>)
    requires
        a.len() == b.len(),
        forall|i: int| 0 <= i < a.len() ==> has_no_newline(#[trigger] a[i]),
        forall|i: int| 0 <= i < b.len() ==> has_no_newline(#[trigger] b[i]),
        a != b,
    ensures
        joined_args(a) != joined_args(b),
    decreases a.len(),
{
    if joined_args(a) == joined_args(b) {
        if a.len() == 0 {
            assert(a =~= b);
        } else if a.len() == 1 {
            assert(a =~= b);
        } else {
            let a2 = a.drop_last();
            let b2 = b.drop_last();
            assert(has_no_newline(a[a.len() - 1]));
            assert(has_no_newline(b[b.len() - 1]));
            lemma_split_at_last_newline(joined_args(a2), a.last(), joined_args(b2), b.last());
            assert forall|i: int| 0 <= i < a2.len() implies has_no_newline(#[trigger] a2[i]) by {
                assert(a2[i] == a[i]);
            }
            assert forall|i: int| 0 <= i < b2.len() implies has_no_newline(#[trigger] b2[i]) by {
                assert(b2[i] == b[i]);
            }
            if a2 != b2 {
                lemma_distinct_args_join_distinctly(a2, b2);
            }
            assert forall|i: int| 0 <= i < a.len() implies a[i] == b[i] by {
                if i < a.len() - 1 {
                    assert(a[i] == a2[i] && b[i] == b2[i]);
                }
            }
            assert(a =~= b);
        }
    }
}

} // verus!
