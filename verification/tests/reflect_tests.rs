use glbind::reflect::attribute_keyword;
use glbind::reflect::scan_declarations;
use glbind::reflect::uniform_keyword;

fn scan_attrs(src: &[u8]) -> Vec<Vec<u8>> {
    let kw = attribute_keyword();
    scan_declarations(&src.to_vec(), &kw)
}

fn scan_uniforms(src: &[u8]) -> Vec<Vec<u8>> {
    let kw = uniform_keyword();
    scan_declarations(&src.to_vec(), &kw)
}

#[test]
fn single_attribute_declaration() {
    let names = scan_attrs(b"attribute vec3 position; void main(){}");
    assert_eq!(names.len(), 1);
    assert_eq!(names[0], b"position".to_vec());
}

#[test]
fn vertex_source_without_attributes_yields_nothing() {
    let names = scan_attrs(b"void main(){ gl_Position = vec4(0.0); }");
    assert_eq!(names.len(), 0);
}

#[test]
fn fragment_source_without_uniforms_yields_nothing() {
    let names = scan_uniforms(b"void main(){ gl_FragColor = vec4(1.0, 1.0, 1.0, 1.0); }");
    assert_eq!(names.len(), 0);
}

#[test]
fn several_declarations_in_source_order() {
    let src = b"attribute vec3 position;\nattribute vec3 normal;\nattribute vec2 uv;\nvoid main(){}";
    let names = scan_attrs(src);
    assert_eq!(names.len(), 3);
    assert_eq!(names[0], b"position".to_vec());
    assert_eq!(names[1], b"normal".to_vec());
    assert_eq!(names[2], b"uv".to_vec());
}

#[test]
fn uniform_declarations_in_both_kinds_of_source() {
    let src = b"uniform mat4 mvp; uniform vec3 light_dir; void main(){}";
    let names = scan_uniforms(src);
    assert_eq!(names.len(), 2);
    assert_eq!(names[0], b"mvp".to_vec());
    assert_eq!(names[1], b"light_dir".to_vec());
}

#[test]
fn attribute_keyword_does_not_match_uniforms() {
    let src = b"uniform mat4 mvp; attribute vec3 position; void main(){}";
    let attrs = scan_attrs(src);
    assert_eq!(attrs.len(), 1);
    assert_eq!(attrs[0], b"position".to_vec());
    let uniforms = scan_uniforms(src);
    assert_eq!(uniforms.len(), 1);
    assert_eq!(uniforms[0], b"mvp".to_vec());
}

#[test]
fn declaration_without_terminator_is_not_scanned() {
    let names = scan_attrs(b"attribute vec3 position");
    assert_eq!(names.len(), 0);
}

#[test]
fn keyword_without_following_tokens_is_not_scanned() {
    let names = scan_attrs(b"attribute;");
    assert_eq!(names.len(), 0);
    let names = scan_attrs(b"attribute ;");
    assert_eq!(names.len(), 0);
}

#[test]
fn whitespace_between_tokens_may_be_newlines_or_tabs() {
    let names = scan_attrs(b"attribute\tvec3\nposition;");
    assert_eq!(names.len(), 1);
    assert_eq!(names[0], b"position".to_vec());
}

#[test]
fn same_name_declared_twice_is_scanned_twice() {
    let src = b"attribute vec3 position; attribute vec4 position;";
    let names = scan_attrs(src);
    assert_eq!(names.len(), 2);
    assert_eq!(names[0], b"position".to_vec());
    assert_eq!(names[1], b"position".to_vec());
}

#[test]
fn empty_source_yields_nothing() {
    let names = scan_attrs(b"");
    assert_eq!(names.len(), 0);
}

#[test]
fn position_only_pair_reflects_one_attribute_and_no_uniforms() {
    let vertex_src = b"attribute vec3 position; void main(){}";
    let fragment_src = b"void main(){ gl_FragColor = vec4(1.0, 1.0, 1.0, 1.0); }";

    let attrs = scan_attrs(vertex_src);
    assert_eq!(attrs, vec![b"position".to_vec()]);
    // With one driver answer, the table holds the one entry.
    let table = glbind::table::build_table(&attrs, vec![Some(0i32)]);
    assert_eq!(table.len(), 1);
    assert_eq!(table.get(&b"position".to_vec()), Some(&0));

    // Neither stage declares a uniform, so there is nothing to resolve and
    // the uniform tables stay absent.
    assert_eq!(scan_uniforms(vertex_src).len(), 0);
    assert_eq!(scan_uniforms(fragment_src).len(), 0);
}
