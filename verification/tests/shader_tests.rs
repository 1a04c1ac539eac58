use shader_sandbox::shader::{
    compose_source, default_fragment_text, find_sub, prelude_text, user_declares_binding,
    vertex_source_text,
};

#[test]
fn prelude_declares_every_reserved_binding() {
    let p = prelude_text();
    assert!(p.contains("var<uniform> res: vec2<f32>;"));
    assert!(p.contains("var<uniform> frame: u32;"));
    assert!(p.contains("var videoBuffer: texture_2d<f32>;"));
    assert!(p.contains("var videoSampler: sampler;"));
    assert!(p.contains("var backBuffer: texture_2d<f32>;"));
    assert!(p.contains("var backSampler: sampler;"));
    assert!(p.contains("@group(0) @binding(0)"));
    assert!(p.contains("@group(0) @binding(1)"));
    assert!(p.contains("@group(0) @binding(2)"));
    assert!(p.contains("@group(0) @binding(3)"));
    assert!(p.contains("@group(1) @binding(0)"));
    assert!(p.contains("@group(1) @binding(1)"));
}

#[test]
fn compose_prepends_prelude_and_newline() {
    let user = "@fragment\nfn fs_main() -> @location(0) vec4<f32> { return vec4<f32>(1, 0, 0, 1); }";
    let composed = compose_source(user);
    let expected = format!("{}\n{}", prelude_text(), user);
    assert_eq!(composed, expected);
}

#[test]
fn compose_of_empty_user_source_is_prelude_and_newline() {
    let composed = compose_source("");
    let expected = format!("{}\n", prelude_text());
    assert_eq!(composed, expected);
}

#[test]
fn user_source_with_group_attribute_is_flagged() {
    assert!(user_declares_binding("@group(0) @binding(0)\nvar<uniform> res: vec2<f32>;"));
    assert!(user_declares_binding("before @group(1) after"));
    assert!(user_declares_binding("@group"));
}

#[test]
fn clean_user_source_is_not_flagged() {
    assert!(!user_declares_binding(
        "@fragment\nfn fs_main() -> @location(0) vec4<f32> { return vec4<f32>(0, 1, 0, 1); }"
    ));
    assert!(!user_declares_binding(""));
    assert!(!user_declares_binding("@ group"));
    assert!(!user_declares_binding("@grou"));
}

#[test]
fn the_fixed_stages_do_not_declare_bindings() {
    assert!(!user_declares_binding(vertex_source_text()));
    assert!(!user_declares_binding(default_fragment_text()));
}

#[test]
fn editing_red_to_green_keeps_both_sources_acceptable() {
    // The live-edit scenario: a shader returning solid red is replaced on
    // disk by one returning solid green; both must pass the binding check
    // and compose against the same prelude, so only the fragment stage
    // differs between the two compile attempts.
    let red = "@fragment\nfn fs_main() -> @location(0) vec4<f32> { return vec4<f32>(1, 0, 0, 1); }";
    let green =
        "@fragment\nfn fs_main() -> @location(0) vec4<f32> { return vec4<f32>(0, 1, 0, 1); }";
    assert!(!user_declares_binding(red));
    assert!(!user_declares_binding(green));
    let composed_red = compose_source(red);
    let composed_green = compose_source(green);
    assert!(composed_red.starts_with(prelude_text()));
    assert!(composed_green.starts_with(prelude_text()));
    assert!(composed_red.ends_with(red));
    assert!(composed_green.ends_with(green));
}

#[test]
fn find_sub_empty_needle_always_matches() {
    assert!(find_sub("", ""));
    assert!(find_sub("abc", ""));
}

#[test]
fn find_sub_longer_needle_never_matches() {
    assert!(!find_sub("ab", "abc"));
    assert!(!find_sub("", "a"));
}

#[test]
fn find_sub_matches_at_every_position() {
    assert!(find_sub("needle in haystack", "needle"));
    assert!(find_sub("in the middle needle here", "needle"));
    assert!(find_sub("at the end: needle", "needle"));
    assert!(!find_sub("nee dle", "needle"));
    assert!(find_sub("nenedleeedle needle", "needle"));
}

#[test]
fn find_sub_handles_multibyte_text() {
    assert!(find_sub("émojis 🎨 and text", "🎨"));
    assert!(!find_sub("émojis and text", "🎨"));
}
