use screencast::render_helpers::gl_strings::{has_bgra_extension, supports_es3};

#[test]
fn version_strings_tell_the_major_version() {
    assert!(supports_es3(b"OpenGL ES 3.0"));
    assert!(supports_es3(b"OpenGL ES 3.2 Mesa 24.0.1"));
    assert!(supports_es3(b"OpenGL ES 10.0"));
    assert!(supports_es3(b"OpenGL ES 3"));
    assert!(!supports_es3(b"OpenGL ES 2.0"));
    assert!(!supports_es3(b"OpenGL ES 3 Mesa"));
    assert!(!supports_es3(b"OpenGL ES .3"));
    assert!(!supports_es3(b"OpenGL ES-CM 1.1"));
    assert!(!supports_es3(b"3.0"));
    assert!(!supports_es3(b""));
    assert!(!supports_es3(b"OpenGL ES 4294967296.0"));
    assert!(supports_es3(b"OpenGL ES 4294967295.0"));
    assert!(supports_es3(b"OpenGL ES +3.0"));
}

#[test]
fn extensions_are_whole_words() {
    assert!(has_bgra_extension(b"GL_EXT_read_format_bgra"));
    assert!(has_bgra_extension(b"GL_A GL_EXT_read_format_bgra GL_B"));
    assert!(!has_bgra_extension(b"GL_EXT_read_format_bgra2"));
    assert!(!has_bgra_extension(b"XGL_EXT_read_format_bgra"));
    assert!(!has_bgra_extension(b""));
    assert!(!has_bgra_extension(b"GL_A GL_B "));
}
