use vstd::prelude::*;

verus! {

/// A character that may open a tag name: an ASCII letter or an underscore.
pub open spec fn tag_name_start(c: char) -> bool {
    ('a' <= c <= 'z') || ('A' <= c <= 'Z') || c == '_'
}

/// A template whose tags open plainly: wherever `{{` occurs, a name
/// character follows at once. Such a template holds no partial tag (which
/// would make compiling read another file from disk), no set-delimiter tag
/// (which would change the tag grammar), and no interpolation of the bare
/// top value (which the renderer refuses for a map); compiling it and
/// rendering it against a map of texts depend on the template, the keys
/// and the values alone.
pub open spec fn plain_template(t: Seq<char>) -> bool {
    forall|i: int|
        0 <= i && i + 1 < t.len() && t[i] == '{' && #[trigger] t[i + 1] == '{' ==> i + 2 < t.len()
            && tag_name_start(t[i + 2])
}

/// Whether a plainly-tagged template compiles; this depends on the
/// template text alone.
pub uninterp spec fn mustache_template_ok(template: Seq<char>) -> bool;

/// The text a plainly-tagged template renders to against the given keys
/// and values; this depends on the template, the keys and the values
/// alone.
pub uninterp spec fn mustache_render(
    template: Seq<char>,
    keys: Seq<Seq<char>>,
    values: Seq<Seq<char>>,
) -> Seq<char>;

/// Whether every pair of braces in the text opens a tag plainly.
pub fn is_plain_template(t: &str) -> (r: bool)
    ensures
        r == plain_template(t@),
{
    let n = t.unicode_len();
    if n < 2 {
        return true;
    }
    let mut i: usize = 0;
    while i < n - 1
        invariant
            2 <= n == t@.len(),
            0 <= i <= n,
            forall|j: int|
                0 <= j < i && j + 1 < t@.len() && t@[j] == '{' && #[trigger] t@[j + 1] == '{'
                    ==> j + 2 < t@.len() && tag_name_start(t@[j + 2]),
        decreases n - i,
    {
        if t.get_char(i) == '{' && t.get_char(i + 1) == '{' {
            if i + 2 >= n {
                return false;
            }
            let c = t.get_char(i + 2);
            if !(('a' <= c && c <= 'z') || ('A' <= c && c <= 'Z') || c == '_') {
                return false;
            }
        }
        i = i + 1;
    }
    true
}

/// A slice of a plainly-tagged text is itself plainly tagged, provided the
/// cut does not fall right where a tag's name character stood.
pub proof fn lemma_plain_template_slice(t: Seq<char>, a: int, b: int)
    requires
        plain_template(t),
        0 <= a <= b <= t.len(),
        b < t.len() ==> !tag_name_start(t[b]),
    ensures
        plain_template(t.subrange(a, b)),
{
    let s = t.subrange(a, b);
    assert forall|i: int|
        0 <= i && i + 1 < s.len() && s[i] == '{' && #[trigger] s[i + 1] == '{' implies i + 2
        < s.len() && tag_name_start(s[i + 2]) by {
        assert(t[a + i] == '{' && t[a + i + 1] == '{');
        assert(a + i + 2 < t.len() && tag_name_start(t[a + i + 2]));
        if a + i + 2 == b {
            assert(!tag_name_start(t[b]));
        }
    }
}

/// Relies on mustache::compile_str, mustache::MapBuilder and
/// mustache::Template::render_data_to_string, for plainly-tagged templates
/// only: compiling such a template reads nothing but its text, rendering
/// it against a map of the given keys and values writes only into memory
/// and succeeds whenever compiling did, and both steps depend on the
/// template, the keys and the values alone.
#[verifier::external_body]
pub(crate) fn render_with(template: &str, keys: &Vec<String>, values: &Vec<String>) -> (r: Result<
    String,
    String,
>)
    requires
        keys@.len() == values@.len(),
        plain_template(template@),
    ensures
        r is Ok <==> mustache_template_ok(template@),
        r matches Ok(s) ==> s@ == mustache_render(
            template@,
            keys@.map_values(|k: String| k@),
            values@.map_values(|v: String| v@),
        ),
{
    let compiled = match mustache::compile_str(template) {
        Ok(t) => t,
        Err(e) => {
            return Err(e.to_string());
        },
    };
    let mut data = mustache::MapBuilder::new();
    for (k, v) in keys.iter().zip(values.iter()) {
        data = data.insert_str(k.clone(), v.clone());
    }
    compiled.render_data_to_string(&data.build()).map_err(|e| e.to_string())
}

} // verus!
