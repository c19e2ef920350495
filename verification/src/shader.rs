//! Shader programs, keyed by descriptors of source identifiers.
//!
//! The library owns the source text and its identity; compiling for a
//! device happens outside, keyed by the cache handle.

use vstd::prelude::*;

verus! {

/// The value of a shader descriptor: the stage source identifiers.
#[verifier::ext_equal]
pub struct ShaderDescriptorView {
    pub vertex: Seq<char>,
    pub fragment: Seq<char>,
    pub geometry: Option<Seq<char>>,
}

/// Identifies a shader program by its stage sources: vertex and fragment
/// identifiers, optionally a geometry stage.
#[derive(Debug)]
pub struct ShaderDescriptor {
    pub vertex: String,
    pub fragment: String,
    pub geometry: Option<String>,
}

impl View for ShaderDescriptor {
    type V = ShaderDescriptorView;

    open spec fn view(&self) -> ShaderDescriptorView {
        ShaderDescriptorView {
            vertex: self.vertex@,
            fragment: self.fragment@,
            geometry: match self.geometry {
                Some(g) => Some(g@),
                None => None,
            },
        }
    }
}

impl crate::cache::CacheKey for ShaderDescriptor {
    fn key_eq(&self, other: &Self) -> (r: bool)
        ensures
            r == (self@ == other@),
    {
        let geometry_eq: bool = match (&self.geometry, &other.geometry) {
            (Some(a), Some(b)) => *a == *b,
            (None, None) => true,
            _ => false,
        };
        let r = self.vertex == other.vertex && self.fragment == other.fragment && geometry_eq;
        proof {
            if r {
                assert(self@ =~= other@);
            }
        }
        r
    }

    fn dup(&self) -> (r: Self)
        ensures
            r@ == self@,
    {
        let r = ShaderDescriptor {
            vertex: self.vertex.clone(),
            fragment: self.fragment.clone(),
            geometry: match &self.geometry {
                Some(g) => Some(g.clone()),
                None => None,
            },
        };
        proof {
            assert(r@ =~= self@);
        }
        r
    }
}

/// The value of a shader program: its stage source texts.
#[verifier::ext_equal]
pub struct ShaderProgramView {
    pub vertex_src: Seq<char>,
    pub fragment_src: Seq<char>,
    pub geometry_src: Option<Seq<char>>,
}

/// A shader program resource: the stage source texts that a graphics
/// backend compiles. Immutable after creation.
#[derive(Debug)]
pub struct ShaderProgram {
    pub vertex_src: String,
    pub fragment_src: String,
    pub geometry_src: Option<String>,
}

impl View for ShaderProgram {
    type V = ShaderProgramView;

    open spec fn view(&self) -> ShaderProgramView {
        ShaderProgramView {
            vertex_src: self.vertex_src@,
            fragment_src: self.fragment_src@,
            geometry_src: match self.geometry_src {
                Some(g) => Some(g@),
                None => None,
            },
        }
    }
}

impl ShaderProgram {
    /// A new instance holding the same sources.
    pub fn duplicate(&self) -> (r: ShaderProgram)
        ensures
            r@ == self@,
    {
        let r = ShaderProgram {
            vertex_src: self.vertex_src.clone(),
            fragment_src: self.fragment_src.clone(),
            geometry_src: match &self.geometry_src {
                Some(g) => Some(g.clone()),
                None => None,
            },
        };
        proof {
            assert(r@ =~= self@);
        }
        r
    }
}

/// Lexicographic order on byte sequences.
pub open spec fn bytes_le(a: Seq<u8>, b: Seq<u8>) -> bool
    decreases a.len(),
{
    if a.len() == 0 {
        true
    } else if b.len() == 0 {
        false
    } else if a[0] < b[0] {
        true
    } else if a[0] > b[0] {
        false
    } else {
        bytes_le(a.drop_first(), b.drop_first())
    }
}

/// The byte order is total.
pub proof fn lemma_bytes_le_total(a: Seq<u8>, b: Seq<u8>)
    ensures
        bytes_le(a, b) || bytes_le(b, a),
    decreases a.len(),
{
    if a.len() > 0 && b.len() > 0 && a[0] == b[0] {
        lemma_bytes_le_total(a.drop_first(), b.drop_first());
    }
}

/// The byte order is antisymmetric.
pub proof fn lemma_bytes_le_antisymmetric(a: Seq<u8>, b: Seq<u8>)
    requires
        bytes_le(a, b),
        bytes_le(b, a),
    ensures
        a == b,
    decreases a.len(),
{
    if a.len() == 0 {
        assert(b.len() == 0);
        assert(a =~= b);
    } else {
        assert(b.len() > 0);
        lemma_bytes_le_antisymmetric(a.drop_first(), b.drop_first());
        assert forall|j: int| 0 <= j < a.len() implies a[j] == b[j] by {
            if j > 0 {
                assert(a.drop_first()[j - 1] == b.drop_first()[j - 1]);
            }
        }
        assert(a =~= b);
    }
}

/// The byte order is transitive.
pub proof fn lemma_bytes_le_transitive(a: Seq<u8>, b: Seq<u8>, c: Seq<u8>)
    requires
        bytes_le(a, b),
        bytes_le(b, c),
    ensures
        bytes_le(a, c),
    decreases a.len(),
{
    if a.len() > 0 {
        assert(b.len() > 0);
        assert(c.len() > 0);
        if a[0] == b[0] && b[0] == c[0] {
            lemma_bytes_le_transitive(a.drop_first(), b.drop_first(), c.drop_first());
        }
    }
}

/// A shared prefix does not decide the order.
proof fn lemma_bytes_le_skip(a: Seq<u8>, b: Seq<u8>, i: int)
    requires
        0 <= i <= a.len(),
        i <= b.len(),
        forall|j: int| 0 <= j < i ==> a[j] == b[j],
    ensures
        bytes_le(a, b) == bytes_le(a.skip(i), b.skip(i)),
    decreases i,
{
    if i > 0 {
        assert(a[0] == b[0]);
        lemma_bytes_le_skip(a.drop_first(), b.drop_first(), i - 1);
        assert(a.drop_first().skip(i - 1) =~= a.skip(i));
        assert(b.drop_first().skip(i - 1) =~= b.skip(i));
    } else {
        assert(a.skip(0) =~= a);
        assert(b.skip(0) =~= b);
    }
}

/// Compare two byte strings: the order and whether they are equal.
fn bytes_le_eq(a: &[u8], b: &[u8]) -> (r: (bool, bool))
    ensures
        r.0 == bytes_le(a@, b@),
        r.1 == (a@ == b@),
{
    let alen = a.len();
    let blen = b.len();
    let min: usize = if alen < blen {
        alen
    } else {
        blen
    };
    let mut i: usize = 0;
    while i < min
        invariant
            min <= a@.len(),
            min <= b@.len(),
            alen == a@.len(),
            blen == b@.len(),
            min == if alen < blen {
                alen as int
            } else {
                blen as int
            },
            0 <= i <= min,
            forall|j: int| 0 <= j < i ==> a@[j] == b@[j],
        decreases min - i,
    {
        let x = a[i];
        let y = b[i];
        if x < y {
            proof {
                lemma_bytes_le_skip(a@, b@, i as int);
                assert(a@.skip(i as int)[0] == a@[i as int]);
                assert(b@.skip(i as int)[0] == b@[i as int]);
            }
            return (true, false);
        }
        if x > y {
            proof {
                lemma_bytes_le_skip(a@, b@, i as int);
                assert(a@.skip(i as int)[0] == a@[i as int]);
                assert(b@.skip(i as int)[0] == b@[i as int]);
            }
            return (false, false);
        }
        i = i + 1;
    }
    proof {
        lemma_bytes_le_skip(a@, b@, min as int);
        if alen == blen {
            assert(a@ =~= b@);
        } else {
            assert(a@.len() != b@.len());
        }
    }
    (alen <= blen, alen == blen)
}

/// The total order on shader descriptors: vertex identifier first, then
/// fragment, then the optional geometry stage (absent sorts first); each
/// field compares lexicographically by its encoded bytes.
pub open spec fn shader_descriptor_le(a: ShaderDescriptorView, b: ShaderDescriptorView) -> bool {
    let av = vstd::utf8::encode_utf8(a.vertex);
    let bv = vstd::utf8::encode_utf8(b.vertex);
    if av != bv {
        bytes_le(av, bv)
    } else {
        let af = vstd::utf8::encode_utf8(a.fragment);
        let bf = vstd::utf8::encode_utf8(b.fragment);
        if af != bf {
            bytes_le(af, bf)
        } else {
            match (a.geometry, b.geometry) {
                (Option::None, _) => true,
                (Option::Some(_), Option::None) => false,
                (Option::Some(x), Option::Some(y)) => bytes_le(
                    vstd::utf8::encode_utf8(x),
                    vstd::utf8::encode_utf8(y),
                ),
            }
        }
    }
}

/// The descriptor order is total.
pub proof fn lemma_shader_descriptor_le_total(a: ShaderDescriptorView, b: ShaderDescriptorView)
    ensures
        shader_descriptor_le(a, b) || shader_descriptor_le(b, a),
{
    lemma_bytes_le_total(vstd::utf8::encode_utf8(a.vertex), vstd::utf8::encode_utf8(b.vertex));
    lemma_bytes_le_total(
        vstd::utf8::encode_utf8(a.fragment),
        vstd::utf8::encode_utf8(b.fragment),
    );
    match (a.geometry, b.geometry) {
        (Option::Some(x), Option::Some(y)) => {
            lemma_bytes_le_total(vstd::utf8::encode_utf8(x), vstd::utf8::encode_utf8(y));
        },
        _ => {},
    }
}

/// The descriptor order is antisymmetric: mutually ordered descriptors
/// are the same value.
pub proof fn lemma_shader_descriptor_le_antisymmetric(
    a: ShaderDescriptorView,
    b: ShaderDescriptorView,
)
    requires
        shader_descriptor_le(a, b),
        shader_descriptor_le(b, a),
    ensures
        a == b,
{
    let av = vstd::utf8::encode_utf8(a.vertex);
    let bv = vstd::utf8::encode_utf8(b.vertex);
    if av != bv {
        lemma_bytes_le_antisymmetric(av, bv);
    }
    vstd::utf8::encode_utf8_decode_utf8(a.vertex);
    vstd::utf8::encode_utf8_decode_utf8(b.vertex);
    assert(a.vertex == b.vertex);
    let af = vstd::utf8::encode_utf8(a.fragment);
    let bf = vstd::utf8::encode_utf8(b.fragment);
    if af != bf {
        lemma_bytes_le_antisymmetric(af, bf);
    }
    vstd::utf8::encode_utf8_decode_utf8(a.fragment);
    vstd::utf8::encode_utf8_decode_utf8(b.fragment);
    assert(a.fragment == b.fragment);
    match (a.geometry, b.geometry) {
        (Option::Some(x), Option::Some(y)) => {
            lemma_bytes_le_antisymmetric(
                vstd::utf8::encode_utf8(x),
                vstd::utf8::encode_utf8(y),
            );
            vstd::utf8::encode_utf8_decode_utf8(x);
            vstd::utf8::encode_utf8_decode_utf8(y);
            assert(x == y);
        },
        _ => {},
    }
    assert(a =~= b);
}

/// The descriptor order is transitive.
pub proof fn lemma_shader_descriptor_le_transitive(
    a: ShaderDescriptorView,
    b: ShaderDescriptorView,
    c: ShaderDescriptorView,
)
    requires
        shader_descriptor_le(a, b),
        shader_descriptor_le(b, c),
    ensures
        shader_descriptor_le(a, c),
{
    let av = vstd::utf8::encode_utf8(a.vertex);
    let bv = vstd::utf8::encode_utf8(b.vertex);
    let cv = vstd::utf8::encode_utf8(c.vertex);
    if av != bv && bv != cv {
        lemma_bytes_le_transitive(av, bv, cv);
        if av == cv {
            lemma_bytes_le_antisymmetric(av, bv);
        }
    } else if av != bv {
        // bv == cv: the vertex comparison with c mirrors the one with b
    } else if bv != cv {
        // av == bv: likewise
    } else {
        // all vertex encodings agree: move to the fragment field
        let af = vstd::utf8::encode_utf8(a.fragment);
        let bf = vstd::utf8::encode_utf8(b.fragment);
        let cf = vstd::utf8::encode_utf8(c.fragment);
        if af != bf && bf != cf {
            lemma_bytes_le_transitive(af, bf, cf);
            if af == cf {
                lemma_bytes_le_antisymmetric(af, bf);
            }
        } else if af == bf && bf == cf {
            match (a.geometry, b.geometry, c.geometry) {
                (Option::Some(x), Option::Some(y), Option::Some(z)) => {
                    lemma_bytes_le_transitive(
                        vstd::utf8::encode_utf8(x),
                        vstd::utf8::encode_utf8(y),
                        vstd::utf8::encode_utf8(z),
                    );
                },
                _ => {},
            }
        }
    }
}

impl ShaderDescriptor {
    /// Whether this descriptor sorts at or before `other`, exact per
    /// `shader_descriptor_le`.
    pub fn le(&self, other: &ShaderDescriptor) -> (r: bool)
        ensures
            r == shader_descriptor_le(self@, other@),
    {
        let (vle, veq) = bytes_le_eq(self.vertex.as_str().as_bytes(), other.vertex.as_str().as_bytes());
        if !veq {
            return vle;
        }
        let (fle, feq) = bytes_le_eq(
            self.fragment.as_str().as_bytes(),
            other.fragment.as_str().as_bytes(),
        );
        if !feq {
            return fle;
        }
        match (&self.geometry, &other.geometry) {
            (Option::None, _) => true,
            (Option::Some(_), Option::None) => false,
            (Option::Some(x), Option::Some(y)) => {
                let (gle, _) = bytes_le_eq(x.as_str().as_bytes(), y.as_str().as_bytes());
                gle
            },
        }
    }
}

/// The descriptor of the built-in shader pair.
pub fn default_shader_descriptor() -> (d: ShaderDescriptor)
    ensures
        d@.vertex == "internal::vertex.glsl"@,
        d@.fragment == "internal::fragment.glsl"@,
        d@.geometry is None,
{
    ShaderDescriptor {
        vertex: "internal::vertex.glsl".to_owned(),
        fragment: "internal::fragment.glsl".to_owned(),
        geometry: None,
    }
}

/// The built-in vertex stage source.
pub fn internal_vertex_source() -> (s: String)
    ensures
        s@
            == "#version 330 core\nin vec3 position;\nin vec3 normal;\nin vec2 tex_coords;\nuniform mat4 camera_mat;\nuniform mat4 model_mat;\nout vec3 frag_normal;\nout vec2 frag_tex;\nvoid main() {\n    frag_normal = mat3(model_mat) * normal;\n    frag_tex = tex_coords;\n    gl_Position = camera_mat * model_mat * vec4(position, 1);\n}\n"@,
{
    "#version 330 core\nin vec3 position;\nin vec3 normal;\nin vec2 tex_coords;\nuniform mat4 camera_mat;\nuniform mat4 model_mat;\nout vec3 frag_normal;\nout vec2 frag_tex;\nvoid main() {\n    frag_normal = mat3(model_mat) * normal;\n    frag_tex = tex_coords;\n    gl_Position = camera_mat * model_mat * vec4(position, 1);\n}\n".to_owned()
}

/// The built-in fragment stage source.
pub fn internal_fragment_source() -> (s: String)
    ensures
        s@
            == "#version 330 core\nin vec3 frag_normal;\nin vec2 frag_tex;\nuniform sampler2D tex;\nuniform vec4 light_pos;\nout vec4 color;\nvoid main() {\n    color = texture(tex, frag_tex);\n}\n"@,
{
    "#version 330 core\nin vec3 frag_normal;\nin vec2 frag_tex;\nuniform sampler2D tex;\nuniform vec4 light_pos;\nout vec4 color;\nvoid main() {\n    color = texture(tex, frag_tex);\n}\n".to_owned()
}

/// Build the built-in shader program from the internal stage sources.
pub fn gen_internal_program() -> (p: ShaderProgram)
    ensures
        p@.vertex_src
            == "#version 330 core\nin vec3 position;\nin vec3 normal;\nin vec2 tex_coords;\nuniform mat4 camera_mat;\nuniform mat4 model_mat;\nout vec3 frag_normal;\nout vec2 frag_tex;\nvoid main() {\n    frag_normal = mat3(model_mat) * normal;\n    frag_tex = tex_coords;\n    gl_Position = camera_mat * model_mat * vec4(position, 1);\n}\n"@,
        p@.fragment_src
            == "#version 330 core\nin vec3 frag_normal;\nin vec2 frag_tex;\nuniform sampler2D tex;\nuniform vec4 light_pos;\nout vec4 color;\nvoid main() {\n    color = texture(tex, frag_tex);\n}\n"@,
        p@.geometry_src is None,
{
    ShaderProgram {
        vertex_src: internal_vertex_source(),
        fragment_src: internal_fragment_source(),
        geometry_src: None,
    }
}

} // verus!
