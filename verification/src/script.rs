//! The export directive handed to the external converter.
//!
//! A conversion runs the converter in batch mode with a one-line script that
//! imports its scripting interface and calls the scene exporter with the
//! destination path, an instruction to overwrite without asking, and the
//! token naming the requested output format. This module builds that line
//! and pins down exactly what it contains.

use crate::path::{spec_render, FilePath};
use vstd::prelude::*;
use vstd::string::StrSliceExecFns;
use vstd::string::StringExecFns;

verus! {

/// The output file format to export to.
#[derive(Debug, Clone, Copy, PartialEq, Eq, Structural)]
pub enum OutputFormat {
    /// glTF Binary (.glb): a single file with all data packed in binary form.
    Glb,
    /// glTF Embedded (.gltf): a single file with all data packed in JSON.
    GltfEmbedded,
    /// glTF Separate (.gltf + .bin + textures): separate JSON, binary and
    /// texture files.
    GltfSeparate,
}

impl Default for OutputFormat {
    /// The default format is glTF Binary.
    fn default() -> (r: Self)
        ensures
            r is Glb,
    {
        OutputFormat::Glb
    }
}

/// The token naming a format inside the export directive.
pub open spec fn spec_token(fmt: OutputFormat) -> Seq<char> {
    match fmt {
        OutputFormat::Glb => "GLB"@,
        OutputFormat::GltfEmbedded => "GLTF_EMBEDDED"@,
        OutputFormat::GltfSeparate => "GLTF_SEPARATE"@,
    }
}

impl OutputFormat {
    /// The token naming this format inside the export directive.
    pub fn token(&self) -> (r: &'static str)
        ensures
            r@ == spec_token(*self),
    {
        match self {
            OutputFormat::Glb => "GLB",
            OutputFormat::GltfEmbedded => "GLTF_EMBEDDED",
            OutputFormat::GltfSeparate => "GLTF_SEPARATE",
        }
    }
}

/// How one character is written inside a quoted string: a quote or a
/// backslash gains a leading backslash, every other character stands as is.
pub open spec fn spec_escape_char(c: char) -> Seq<char> {
    if c == '"' || c == '\\' {
        "\\"@ + seq![c]
    } else {
        seq![c]
    }
}

/// The characters of `s`, each written as inside a quoted string.
pub open spec fn spec_escape(s: Seq<char>) -> Seq<char>
    decreases s.len(),
{
    if s.len() == 0 {
        Seq::empty()
    } else {
        spec_escape(s.drop_last()) + spec_escape_char(s.last())
    }
}

/// `s` surrounded by double quotes, with quotes and backslashes escaped.
pub open spec fn spec_quote(s: Seq<char>) -> Seq<char> {
    "\""@ + spec_escape(s) + "\""@
}

/// Escaping leaves a text without quotes and backslashes unchanged.
proof fn lemma_escape_plain(s: Seq<char>)
    requires
        forall|i: int| 0 <= i < s.len() ==> s[i] != '"' && s[i] != '\\',
    ensures
        spec_escape(s) == s,
    decreases s.len(),
{
    if s.len() > 0 {
        lemma_escape_plain(s.drop_last());
        assert(spec_escape(s.drop_last()) + spec_escape_char(s.last()) =~= s);
    }
}

/// Writes `s` as a double-quoted string with quotes and backslashes escaped.
fn quote(s: &str) -> (r: String)
    ensures
        r@ == spec_quote(s@),
{
    let len = s.unicode_len();
    let mut out = "\"".to_owned();
    proof {
        assert(s@.subrange(0, 0) =~= Seq::<char>::empty());
        assert(out@ =~= "\""@ + spec_escape(s@.subrange(0, 0)));
    }
    let mut i: usize = 0;
    while i < len
        invariant
            i <= len,
            len == s@.len(),
            out@ == "\""@ + spec_escape(s@.subrange(0, i as int)),
        decreases len - i,
    {
        let ch = s.get_char(i);
        if ch == '"' || ch == '\\' {
            out.append("\\");
        }
        let piece = s.substring_char(i, i + 1);
        out.append(piece);
        proof {
            let prev = s@.subrange(0, i as int);
            let cur = s@.subrange(0, i + 1);
            assert(cur.drop_last() =~= prev);
            assert(cur.last() == s@[i as int]);
            assert(piece@ =~= seq![s@[i as int]]);
            assert(spec_escape(cur) == spec_escape(prev) + spec_escape_char(s@[i as int]));
            assert(out@ =~= "\""@ + spec_escape(cur));
        }
        i = i + 1;
    }
    proof {
        assert(s@.subrange(0, s@.len() as int) =~= s@);
    }
    out.append("\"");
    proof {
        assert(out@ =~= spec_quote(s@));
    }
    out
}

/// The directive handed to the converter: one line that imports its
/// scripting interface and calls the scene exporter with the destination
/// path, overwrite allowed, and the format token.
pub open spec fn spec_export_script(fmt: OutputFormat, file_path: FilePath) -> Seq<char> {
    "import bpy; bpy.ops.export_scene.gltf(filepath="@ + spec_quote(spec_render(file_path))
        + ", check_existing=False, export_format="@ + spec_quote(spec_token(fmt)) + ")"@
}

/// Whether `t` occurs inside `s` as one contiguous run.
pub open spec fn spec_contains(s: Seq<char>, t: Seq<char>) -> bool {
    exists|k: int| 0 <= k && k + t.len() <= s.len() && #[trigger] s.subrange(k, k + t.len() as int)
        == t
}

/// Every format token is free of quotes and backslashes, so quoting embeds
/// it unchanged.
proof fn lemma_token_plain(fmt: OutputFormat)
    ensures
        forall|i: int| 0 <= i < spec_token(fmt).len() ==> spec_token(fmt)[i] != '"'
            && spec_token(fmt)[i] != '\\',
{
    reveal_strlit("GLB");
    reveal_strlit("GLTF_EMBEDDED");
    reveal_strlit("GLTF_SEPARATE");
}

/// Format token mapping, first half: the export directive built for a
/// format contains that format's token, as the quoted value of the
/// `export_format` parameter.
pub proof fn lemma_directive_contains_token(fmt: OutputFormat, file_path: FilePath)
    ensures
        spec_contains(spec_export_script(fmt, file_path), spec_token(fmt)),
{
    let d = spec_export_script(fmt, file_path);
    let t = spec_token(fmt);
    lemma_token_plain(fmt);
    lemma_escape_plain(t);
    reveal_strlit("\"");
    let a = "import bpy; bpy.ops.export_scene.gltf(filepath="@ + spec_quote(spec_render(file_path))
        + ", check_existing=False, export_format="@ + "\""@;
    let k = a.len() as int;
    assert(d =~= a + t + ("\""@ + ")"@));
    assert forall|j: int| 0 <= j < t.len() implies d.subrange(k, k + t.len() as int)[j] == t[j] by {
        assert(d[k + j] == (a + t + ("\""@ + ")"@))[k + j]);
    }
    assert(d.subrange(k, k + t.len() as int) =~= t);
    assert(0 <= k && k + t.len() <= d.len());
}

/// Format token mapping, second half: distinct formats carry distinct
/// tokens, so no directive names the token of another format in its
/// `export_format` parameter.
pub proof fn lemma_tokens_distinct(a: OutputFormat, b: OutputFormat)
    requires
        a != b,
    ensures
        spec_token(a) != spec_token(b),
{
    reveal_strlit("GLB");
    reveal_strlit("GLTF_EMBEDDED");
    reveal_strlit("GLTF_SEPARATE");
    assert("GLB"@.len() == 3);
    assert("GLTF_EMBEDDED"@.len() == 13);
    assert("GLTF_SEPARATE"@.len() == 13);
    assert("GLTF_EMBEDDED"@[5] == 'E');
    assert("GLTF_SEPARATE"@[5] == 'S');
}

/// A text without the character `G` contains no format token, since every
/// token begins with one.
proof fn lemma_g_free_text_has_no_token(s: Seq<char>, fmt: OutputFormat)
    requires
        forall|i: int| 0 <= i < s.len() ==> s[i] != 'G',
    ensures
        !spec_contains(s, spec_token(fmt)),
{
    reveal_strlit("GLB");
    reveal_strlit("GLTF_EMBEDDED");
    reveal_strlit("GLTF_SEPARATE");
    let t = spec_token(fmt);
    assert(t[0] == 'G');
    if spec_contains(s, t) {
        let k = choose|k: int| 0 <= k && k + t.len() <= s.len() && #[trigger] s.subrange(
            k,
            k + t.len() as int,
        ) == t;
        assert(s.subrange(k, k + t.len() as int)[0] == s[k]);
    }
}

/// Neither fixed piece of the directive text contains any format token:
/// both are free of the character `G`.
proof fn lemma_fixed_text_free(fmt: OutputFormat)
    ensures
        !spec_contains("import bpy; bpy.ops.export_scene.gltf(filepath="@, spec_token(fmt)),
        !spec_contains(", check_existing=False, export_format="@, spec_token(fmt)),
{
    reveal_strlit("import bpy; bpy.ops.export_scene.gltf(filepath=");
    reveal_strlit(", check_existing=False, export_format=");
    assert(forall|i: int| 0 <= i < "import bpy; bpy.ops.export_scene.gltf(filepath="@.len()
        ==> "import bpy; bpy.ops.export_scene.gltf(filepath="@[i] != 'G');
    assert(forall|i: int| 0 <= i < ", check_existing=False, export_format="@.len()
        ==> ", check_existing=False, export_format="@[i] != 'G');
    lemma_g_free_text_has_no_token("import bpy; bpy.ops.export_scene.gltf(filepath="@, fmt);
    lemma_g_free_text_has_no_token(", check_existing=False, export_format="@, fmt);
}

/// No format token contains another format's token.
proof fn lemma_token_not_in_token(a: OutputFormat, b: OutputFormat)
    requires
        a != b,
    ensures
        !spec_contains(spec_token(a), spec_token(b)),
{
    reveal_strlit("GLB");
    reveal_strlit("GLTF_EMBEDDED");
    reveal_strlit("GLTF_SEPARATE");
    let ta = spec_token(a);
    let tb = spec_token(b);
    lemma_tokens_distinct(a, b);
    if spec_contains(ta, tb) {
        let k = choose|k: int| 0 <= k && k + tb.len() <= ta.len() && #[trigger] ta.subrange(
            k,
            k + tb.len() as int,
        ) == tb;
        if ta.len() == tb.len() {
            assert(ta.subrange(0, ta.len() as int) =~= ta);
        } else {
            // only a 3-character token fits inside a 13-character one, and
            // `G` stands only at the front, where the third characters differ
            assert(ta.subrange(k, k + tb.len() as int)[0] == ta[k]);
            assert(ta[k] == 'G');
            assert(forall|i: int| 1 <= i < ta.len() ==> ta[i] != 'G');
            assert(ta.subrange(k, k + tb.len() as int)[2] == ta[2]);
        }
    }
}

/// Format token mapping, completed: the directive built for one format
/// never contains another format's token, as long as the quoted destination
/// path itself is free of that token. The window of an occurrence could
/// never cross between the fixed text, the quoted path and the quoted
/// token, because crossing would put a double quote inside the token.
pub proof fn lemma_directive_no_foreign_token(
    a: OutputFormat,
    b: OutputFormat,
    file_path: FilePath,
)
    requires
        a != b,
        !spec_contains(spec_quote(spec_render(file_path)), spec_token(b)),
    ensures
        !spec_contains(spec_export_script(a, file_path), spec_token(b)),
{
    let d = spec_export_script(a, file_path);
    let t = spec_token(b);
    let pre = "import bpy; bpy.ops.export_scene.gltf(filepath="@;
    let qp = spec_quote(spec_render(file_path));
    let mid = ", check_existing=False, export_format="@;
    let ta = spec_token(a);
    lemma_token_plain(a);
    lemma_token_plain(b);
    lemma_escape_plain(ta);
    reveal_strlit("\"");
    reveal_strlit(")");
    reveal_strlit("GLB");
    reveal_strlit("GLTF_EMBEDDED");
    reveal_strlit("GLTF_SEPARATE");
    let p0 = pre.len() as int;
    let p1 = p0 + qp.len();
    let p2 = p1 + mid.len();
    let p3 = p2 + ta.len() + 2;
    assert(d =~= pre + qp + mid + ("\""@ + ta + "\""@) + ")"@);
    assert(d.len() == p3 + 1);
    assert(qp.len() >= 2);
    assert(t.len() >= 3);
    if spec_contains(d, t) {
        let k = choose|k: int| 0 <= k && k + t.len() <= d.len() && #[trigger] d.subrange(
            k,
            k + t.len() as int,
        ) == t;
        let e = k + t.len() as int;
        // no double quote stands inside the occurrence window
        assert forall|i: int| k <= i < e implies d[i] != '"' by {
            assert(d.subrange(k, e)[i - k] == d[i]);
        }
        // the double quotes that fence the two variable parts
        assert(d[p0] == '"');
        assert(d[p1 - 1] == '"');
        assert(d[p2] == '"');
        assert(d[p3 - 1] == '"');
        if e <= p0 {
            // the window would lie in the fixed prefix
            assert forall|j: int| 0 <= j < t.len() implies pre.subrange(k, e)[j] == t[j] by {
                assert(pre.subrange(k, e)[j] == pre[k + j]);
                assert(d.subrange(k, e)[j] == d[k + j]);
            }
            assert(pre.subrange(k, e) =~= t);
            assert(pre.subrange(k, k + t.len() as int) == t);
            lemma_fixed_text_free(b);
            assert(false);
        } else if k >= p0 && e <= p1 {
            // the window would lie in the quoted destination path
            assert forall|j: int| 0 <= j < t.len() implies qp.subrange(k - p0, e - p0)[j] == t[j]
                by {
                assert(qp.subrange(k - p0, e - p0)[j] == qp[k - p0 + j]);
                assert(d.subrange(k, e)[j] == d[k + j]);
                assert(d[k + j] == qp[k - p0 + j]);
            }
            assert(qp.subrange(k - p0, e - p0) =~= t);
            assert(qp.subrange(k - p0, (k - p0) + t.len() as int) == t);
            assert(false);
        } else if k >= p1 && e <= p2 {
            // the window would lie in the fixed middle text
            assert forall|j: int| 0 <= j < t.len() implies mid.subrange(k - p1, e - p1)[j] == t[j]
                by {
                assert(mid.subrange(k - p1, e - p1)[j] == mid[k - p1 + j]);
                assert(d.subrange(k, e)[j] == d[k + j]);
                assert(d[k + j] == mid[k - p1 + j]);
            }
            assert(mid.subrange(k - p1, e - p1) =~= t);
            assert(mid.subrange(k - p1, (k - p1) + t.len() as int) == t);
            lemma_fixed_text_free(b);
            assert(false);
        } else if k >= p2 && e <= p3 {
            // the window would lie strictly inside this format's own token,
            // since it cannot touch the quotes around it
            assert(k > p2);
            assert(e < p3);
            assert forall|j: int| 0 <= j < t.len() implies ta.subrange(
                k - p2 - 1,
                e - p2 - 1,
            )[j] == t[j] by {
                assert(ta.subrange(k - p2 - 1, e - p2 - 1)[j] == ta[k - p2 - 1 + j]);
                assert(d.subrange(k, e)[j] == d[k + j]);
                assert(d[k + j] == ta[k - p2 - 1 + j]);
            }
            assert(ta.subrange(k - p2 - 1, e - p2 - 1) =~= t);
            assert(ta.subrange(k - p2 - 1, (k - p2 - 1) + t.len() as int) == t);
            lemma_token_not_in_token(a, b);
            assert(false);
        } else {
            // the window would cross a fence
            assert(k >= p0 || e <= p0);
            assert(k >= p3 ==> e > d.len());
            assert(false);
        }
    }
}

/// The directive pins the format down: for one destination, distinct
/// formats build distinct directives, differing exactly in the
/// `export_format` token.
pub proof fn lemma_directive_determines_format(a: OutputFormat, b: OutputFormat, file_path: FilePath)
    requires
        a != b,
    ensures
        spec_export_script(a, file_path) != spec_export_script(b, file_path),
{
    let da = spec_export_script(a, file_path);
    let db = spec_export_script(b, file_path);
    let ta = spec_token(a);
    let tb = spec_token(b);
    lemma_token_plain(a);
    lemma_token_plain(b);
    lemma_escape_plain(ta);
    lemma_escape_plain(tb);
    lemma_tokens_distinct(a, b);
    reveal_strlit("\"");
    reveal_strlit("GLB");
    reveal_strlit("GLTF_EMBEDDED");
    reveal_strlit("GLTF_SEPARATE");
    let x = "import bpy; bpy.ops.export_scene.gltf(filepath="@ + spec_quote(spec_render(file_path))
        + ", check_existing=False, export_format="@ + "\""@;
    let k = x.len() as int;
    assert(da =~= x + ta + ("\""@ + ")"@));
    assert(db =~= x + tb + ("\""@ + ")"@));
    if ta.len() != tb.len() {
        assert(da.len() != db.len());
    } else {
        assert(ta =~= "GLTF_EMBEDDED"@ || ta =~= "GLTF_SEPARATE"@);
        assert(ta[5] != tb[5]);
        assert(da[k + 5] == ta[5]);
        assert(db[k + 5] == tb[5]);
    }
}

impl OutputFormat {
    /// Builds the export directive for this format and destination path.
    pub fn export_script(&self, file_path: &FilePath) -> (r: String)
        ensures
            r@ == spec_export_script(*self, *file_path),
    {
        let mut out = "import bpy; bpy.ops.export_scene.gltf(filepath=".to_owned();
        let rendered = file_path.display();
        let quoted_path = quote(rendered.as_str());
        out.append(quoted_path.as_str());
        out.append(", check_existing=False, export_format=");
        let quoted_token = quote(self.token());
        out.append(quoted_token.as_str());
        out.append(")");
        proof {
            assert(out@ =~= spec_export_script(*self, *file_path));
        }
        out
    }
}

} // verus!
