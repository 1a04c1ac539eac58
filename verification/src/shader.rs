//! Shader source handling: the fixed prelude that declares the binding ABI,
//! the fixed vertex stage, composition of user fragment source with the
//! prelude, and the check that user source does not declare bindings of its
//! own.
//!
//! The prelude is a stable contract: binding group 0 holds the resolution
//! uniform, the frame-counter uniform and the camera texture with its
//! sampler; binding group 1 holds the feedback texture with its sampler.
//! User fragment code may reference these by name and must not declare any
//! `@group` binding itself.

use vstd::prelude::*;
use vstd::string::*;

verus! {

/// The characters of the fixed prelude prepended to every user fragment
/// source.
pub open spec fn prelude() -> Seq<char> {
    "@group(0) @binding(0)
var<uniform> res: vec2<f32>;
@group(0) @binding(1)
var<uniform> frame: u32;
@group(0) @binding(2)
var videoBuffer: texture_2d<f32>;
@group(0) @binding(3)
var videoSampler: sampler;
@group(1) @binding(0)
var backBuffer: texture_2d<f32>;
@group(1) @binding(1)
var backSampler: sampler;"@
}

/// The prelude as source text.
pub fn prelude_text() -> (r: &'static str)
    ensures
        r@ == prelude(),
{
    "@group(0) @binding(0)
var<uniform> res: vec2<f32>;
@group(0) @binding(1)
var<uniform> frame: u32;
@group(0) @binding(2)
var videoBuffer: texture_2d<f32>;
@group(0) @binding(3)
var videoSampler: sampler;
@group(1) @binding(0)
var backBuffer: texture_2d<f32>;
@group(1) @binding(1)
var backSampler: sampler;"
}

/// The characters of the fixed vertex stage: a full-screen quad of two
/// triangles, six vertices, fully procedural, no vertex buffers.
pub open spec fn vertex_source() -> Seq<char> {
    "@vertex
fn vs_main(@builtin(vertex_index) idx: u32) -> @builtin(position) vec4<f32> {
    let xi = select(0u, 1u, idx == 1u || idx == 4u || idx == 5u);
    let yi = select(0u, 1u, idx == 2u || idx == 3u || idx == 5u);
    let p = vec2<f32>(f32(xi), f32(yi)) * f32(2) - vec2<f32>(f32(1), f32(1));
    return vec4<f32>(p.x, p.y, f32(0), f32(1));
}"@
}

/// The vertex stage as source text.
pub fn vertex_source_text() -> (r: &'static str)
    ensures
        r@ == vertex_source(),
{
    "@vertex
fn vs_main(@builtin(vertex_index) idx: u32) -> @builtin(position) vec4<f32> {
    let xi = select(0u, 1u, idx == 1u || idx == 4u || idx == 5u);
    let yi = select(0u, 1u, idx == 2u || idx == 3u || idx == 5u);
    let p = vec2<f32>(f32(xi), f32(yi)) * f32(2) - vec2<f32>(f32(1), f32(1));
    return vec4<f32>(p.x, p.y, f32(0), f32(1));
}"
}

/// The characters of the fragment stage the sandbox starts with: it shows
/// the camera picture unchanged.
pub open spec fn default_fragment_source() -> Seq<char> {
    "@fragment
fn fs_main(@builtin(position) pos: vec4<f32>) -> @location(0) vec4<f32> {
    let uv = pos.xy / res;
    return textureSample(videoBuffer, videoSampler, uv);
}"@
}

/// The starting fragment stage as source text.
pub fn default_fragment_text() -> (r: &'static str)
    ensures
        r@ == default_fragment_source(),
{
    "@fragment
fn fs_main(@builtin(position) pos: vec4<f32>) -> @location(0) vec4<f32> {
    let uv = pos.xy / res;
    return textureSample(videoBuffer, videoSampler, uv);
}"
}

/// What composing user fragment source with the prelude yields: the prelude,
/// a newline, then the user text, exactly.
pub open spec fn composed(user: Seq<char>) -> Seq<char> {
    prelude() + "\n"@ + user
}

/// Prepend the fixed prelude (and a separating newline) to user fragment
/// source.
pub fn compose_source(user: &str) -> (r: String)
    ensures
        r@ == composed(user@),
{
    let mut out = String::from_str(prelude_text());
    out.append("\n");
    out.append(user);
    out
}

/// The needle `n` occurs in `h` at position `i`.
pub open spec fn contains_at(h: Seq<char>, n: Seq<char>, i: int) -> bool {
    &&& 0 <= i
    &&& i + n.len() <= h.len()
    &&& h.subrange(i, i + n.len() as int) == n
}

/// The needle `n` occurs somewhere in `h`.
pub open spec fn contains_seq(h: Seq<char>, n: Seq<char>) -> bool {
    exists|i: int| contains_at(h, n, i)
}

/// User source declares a binding of its own exactly when it holds a
/// `@group` attribute: every binding declaration needs one, and the prelude
/// is the only place bindings may be declared. The check is textual and
/// deliberately over-approximate — `@group` inside a comment or a string is
/// rejected too, which only ever refuses sources, never lets a redeclaration
/// through.
pub open spec fn declares_binding(user: Seq<char>) -> bool {
    contains_seq(user, "@group"@)
}

fn match_at(h: &str, n: &str, i: usize) -> (r: bool)
    requires
        i + n@.len() <= h@.len(),
        h@.len() <= usize::MAX,
    ensures
        r == contains_at(h@, n@, i as int),
{
    let nl = n.unicode_len();
    let mut j: usize = 0;
    while j < nl
        invariant
            j <= nl,
            nl == n@.len(),
            i + nl <= h@.len(),
            h@.len() <= usize::MAX,
            forall|k: int| 0 <= k < j ==> h@[i + k] == n@[k],
        decreases nl - j,
    {
        if h.get_char(i + j) != n.get_char(j) {
            proof {
                assert(h@.subrange(i as int, i + nl as int)[j as int] == h@[i + j]);
            }
            return false;
        }
        j += 1;
    }
    proof {
        assert(h@.subrange(i as int, i + nl as int) =~= n@);
    }
    true
}

/// Search `h` for the needle `n`.
pub fn find_sub(h: &str, n: &str) -> (r: bool)
    ensures
        r == contains_seq(h@, n@),
{
    let hl = h.unicode_len();
    let nl = n.unicode_len();
    if nl > hl {
        proof {
            assert(forall|i: int| !contains_at(h@, n@, i));
        }
        return false;
    }
    if nl == 0 {
        proof {
            assert(h@.subrange(0, 0) =~= n@);
            assert(contains_at(h@, n@, 0));
        }
        return true;
    }
    let last = hl - nl;
    let mut i: usize = 0;
    loop
        invariant
            1 <= nl <= hl,
            hl == h@.len(),
            nl == n@.len(),
            last == hl - nl,
            i <= last + 1,
            forall|k: int| 0 <= k < i ==> !contains_at(h@, n@, k),
        decreases last + 1 - i,
    {
        if i > last {
            proof {
                assert(forall|k: int| contains_at(h@, n@, k) ==> 0 <= k <= last);
            }
            return false;
        }
        if match_at(h, n, i) {
            proof {
                assert(contains_at(h@, n@, i as int));
            }
            return true;
        }
        i += 1;
    }
}

/// Does user fragment source declare a reserved binding?
pub fn user_declares_binding(user: &str) -> (r: bool)
    ensures
        r == declares_binding(user@),
{
    find_sub(user, "@group")
}

} // verus!
