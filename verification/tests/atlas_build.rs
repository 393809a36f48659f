use cave_editor::atlas::{build_atlas, AtlasError, AtlasRegion};

#[test]
fn header_plus_one_row() {
    let a = build_atlas(b"name,x,y,w,h\nfoo,10,20,30,40\n", 100, 100).unwrap();
    assert_eq!(a.regions.len(), 1);
    assert_eq!(a.regions[0], AtlasRegion { x: 10, y: 20, width: 30, height: 40 });
    assert_eq!(a.tile_names, vec![b"foo".to_vec()]);
    assert_eq!(a.image_width, 100);
    assert_eq!(a.image_height, 100);
}

#[test]
fn empty_input_builds_empty_atlas() {
    let a = build_atlas(b"", 64, 64).unwrap();
    assert_eq!(a.regions.len(), 0);
    assert_eq!(a.tile_names.len(), 0);
}

#[test]
fn header_only_builds_empty_atlas() {
    let a = build_atlas(b"name,x,y,w,h\n", 64, 64).unwrap();
    assert_eq!(a.regions.len(), 0);
}

#[test]
fn rows_keep_file_order() {
    let a = build_atlas(b"name,x,y,w,h\nfirst,1,2,3,4\nsecond,5,6,7,8\n", 640, 480).unwrap();
    assert_eq!(a.regions.len(), 2);
    assert_eq!(a.tile_names[0], b"first".to_vec());
    assert_eq!(a.tile_names[1], b"second".to_vec());
    assert_eq!(a.regions[0], AtlasRegion { x: 1, y: 2, width: 3, height: 4 });
    assert_eq!(a.regions[1], AtlasRegion { x: 5, y: 6, width: 7, height: 8 });
}

#[test]
fn numeric_fields_may_have_whitespace() {
    let a = build_atlas(b"name,x,y,w,h\nfoo, 10\t,20 , 30 ,40\n", 100, 100).unwrap();
    assert_eq!(a.regions[0], AtlasRegion { x: 10, y: 20, width: 30, height: 40 });
}

#[test]
fn crlf_line_endings_accepted() {
    let a = build_atlas(b"name,x,y,w,h\r\nfoo,10,20,30,40\r\n", 100, 100).unwrap();
    assert_eq!(a.regions[0], AtlasRegion { x: 10, y: 20, width: 30, height: 40 });
    assert_eq!(a.tile_names[0], b"foo".to_vec());
}

#[test]
fn extra_fields_are_ignored() {
    let a = build_atlas(b"name,x,y,w,h\nfoo,10,20,30,40,junk\n", 100, 100).unwrap();
    assert_eq!(a.regions[0], AtlasRegion { x: 10, y: 20, width: 30, height: 40 });
}

#[test]
fn missing_field_is_reported_with_line_and_field() {
    let e = build_atlas(b"name,x,y,w,h\nfoo,1,2\n", 100, 100).unwrap_err();
    assert_eq!(e, AtlasError::MissingField { line_number: 2, field: 3 });
}

#[test]
fn bad_number_is_reported_with_raw_text() {
    let e = build_atlas(b"name,x,y,w,h\nfoo,12a,2,3,4\n", 100, 100).unwrap_err();
    assert_eq!(
        e,
        AtlasError::BadNumber { line_number: 2, field: 1, raw: b"12a".to_vec() }
    );
}

#[test]
fn oversized_number_is_a_bad_number() {
    let e = build_atlas(b"name,x,y,w,h\nfoo,1,2,3,4294967296\n", 100, 100).unwrap_err();
    assert_eq!(
        e,
        AtlasError::BadNumber { line_number: 2, field: 4, raw: b"4294967296".to_vec() }
    );
}

#[test]
fn empty_numeric_field_is_a_bad_number() {
    let e = build_atlas(b"name,x,y,w,h\nfoo,,2,3,4\n", 100, 100).unwrap_err();
    assert_eq!(e, AtlasError::BadNumber { line_number: 2, field: 1, raw: b"".to_vec() });
}

#[test]
fn first_bad_line_wins() {
    let e = build_atlas(
        b"name,x,y,w,h\ngood,1,2,3,4\nbad,x,2,3,4\nworse,1\n",
        100,
        100,
    )
    .unwrap_err();
    assert_eq!(e, AtlasError::BadNumber { line_number: 3, field: 1, raw: b"x".to_vec() });
}

#[test]
fn largest_u32_value_parses() {
    let a = build_atlas(b"name,x,y,w,h\nfoo,4294967295,0,1,1\n", 100, 100).unwrap();
    assert_eq!(a.regions[0].x, 4294967295);
}
