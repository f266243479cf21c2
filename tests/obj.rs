use glwrap::utils::load::{
    parse_usize_chars, split_slash, split_words, CoordinateLine, FaceList, ObjLoader, ParseError,
    ParseErrorKind, UnimplementedFeature,
};

fn chars(s: &str) -> Vec<char> {
    s.chars().collect()
}

fn strings(ws: &[Vec<char>]) -> Vec<String> {
    ws.iter().map(|w| w.iter().collect()).collect()
}

#[test]
fn face_line_test() {
    let mut faces = FaceList::new();
    let line = "f 6/1/1 11/2/1 7/3/1 4/4/1".to_string();
    let result = ObjLoader::parse_face_line(&mut faces, &line, 1).expect("No error should occur");
    assert!(result);

    assert_eq!(faces.face_verts, vec![(5, 10, 6), (10, 6, 3)]);
    assert_eq!(faces.face_normals, vec![(0, 0, 0), (0, 0, 0)]);
}

#[test]
fn face_line_errors_leave_faces_unchanged() {
    let mut faces = FaceList::new();
    assert!(!ObjLoader::parse_face_line(&mut faces, "v 1 2 3", 2).unwrap());
    let r = ObjLoader::parse_face_line(&mut faces, "f 1/1/1 2/2/2", 3);
    assert!(matches!(r, Err(ParseError { kind: ParseErrorKind::IncorrectNComponents, line: Some(3) })));
    let r = ObjLoader::parse_face_line(&mut faces, "f 1/1/1 2/2/2 3/3/3 4//4", 4);
    assert!(matches!(
        r,
        Err(ParseError { kind: ParseErrorKind::NotSupported(UnimplementedFeature::FaceWithNoTexture), line: Some(4) })
    ));
    let r = ObjLoader::parse_face_line(&mut faces, "f 1/1/ 2/2/2 3/3/3", 5);
    assert!(matches!(
        r,
        Err(ParseError { kind: ParseErrorKind::NotSupported(UnimplementedFeature::FaceWithNoNormal), .. })
    ));
    let r = ObjLoader::parse_face_line(&mut faces, "f 1/x/1 2/2/2 3/3/3", 6);
    assert!(matches!(r, Err(ParseError { kind: ParseErrorKind::ExpectedInt, .. })));
    let r = ObjLoader::parse_face_line(&mut faces, "f 0/1/1 2/2/2 3/3/3", 7);
    assert!(matches!(r, Err(ParseError { kind: ParseErrorKind::ExpectedInt, .. })));
    let r = ObjLoader::parse_face_line(&mut faces, "f 1/1 2/2/2 3/3/3", 8);
    assert!(matches!(r, Err(ParseError { kind: ParseErrorKind::IncorrectNComponents, .. })));
    assert!(faces.face_verts.is_empty());
    assert!(faces.face_tex_coords.is_empty());

    assert!(ObjLoader::parse_face_line(&mut faces, "f  +1/2/3\t4/5/6   7/8/9  ", 9).unwrap());
    assert_eq!(faces.face_verts, vec![(0, 3, 6)]);
    assert_eq!(faces.face_tex_coords, vec![(1, 4, 7)]);
    assert_eq!(faces.face_normals, vec![(2, 5, 8)]);
}

#[test]
fn vertex_line_words() {
    let ws = ObjLoader::coordinate_words(CoordinateLine::Vertex, "v 0.000000 0.000000 -2.997484\n", 1)
        .expect("No error should occur")
        .unwrap();
    assert_eq!(strings(&ws), vec!["0.000000", "0.000000", "-2.997484"]);
    let ws = ObjLoader::coordinate_words(CoordinateLine::Vertex, "v   0.000000   0.000000  -2.997484 \n", 1)
        .unwrap()
        .unwrap();
    assert_eq!(strings(&ws), vec!["0.000000", "0.000000", "-2.997484"]);
    let r = ObjLoader::coordinate_words(CoordinateLine::Vertex, "v   0.000000   0.000000   \n", 1);
    assert!(matches!(r, Err(ParseError { kind: ParseErrorKind::IncorrectNComponents, line: Some(1) })));
    let r = ObjLoader::coordinate_words(CoordinateLine::Vertex, "v 1 2 3 1", 2);
    assert!(matches!(
        r,
        Err(ParseError { kind: ParseErrorKind::NotSupported(UnimplementedFeature::WeightCoordinateOnVertex), .. })
    ));
    assert!(ObjLoader::coordinate_words(CoordinateLine::Vertex, "vn 1 2 3", 2).unwrap().is_none());
}

#[test]
fn normal_and_texture_line_words() {
    let ws = ObjLoader::coordinate_words(CoordinateLine::Normal, "vn -0.3060 -0.8981 0.3158", 1)
        .unwrap()
        .unwrap();
    assert_eq!(strings(&ws), vec!["-0.3060", "-0.8981", "0.3158"]);
    let r = ObjLoader::coordinate_words(CoordinateLine::Normal, "vn   0.000000   0.000000   \n", 1);
    assert!(matches!(r, Err(ParseError { kind: ParseErrorKind::IncorrectNComponents, .. })));
    let ws = ObjLoader::coordinate_words(CoordinateLine::Texture, "vt 0.5 0.25", 3).unwrap().unwrap();
    assert_eq!(strings(&ws), vec!["0.5", "0.25"]);
    let r = ObjLoader::coordinate_words(CoordinateLine::Texture, "vt 0.5 0.25 1.0", 3);
    assert!(matches!(
        r,
        Err(ParseError { kind: ParseErrorKind::NotSupported(UnimplementedFeature::TexCoordsNotEqualTo2), .. })
    ));
    let r = ObjLoader::coordinate_words(CoordinateLine::Texture, "vt", 3);
    assert!(r.unwrap().is_none());
}

#[test]
fn splitting_and_numbers() {
    assert_eq!(strings(&split_words(&chars(" a\tbc \r\n d "))), vec!["a", "bc", "d"]);
    assert!(split_words(&chars("   ")).is_empty());
    assert_eq!(strings(&split_slash(&chars("6//1"))), vec!["6", "", "1"]);
    assert_eq!(strings(&split_slash(&chars(""))), vec![""]);
    assert_eq!(parse_usize_chars(&chars("+42")), Some(42));
    assert_eq!(parse_usize_chars(&chars("18446744073709551615")), Some(usize::MAX));
    assert_eq!(parse_usize_chars(&chars("18446744073709551616")), None);
    assert_eq!(parse_usize_chars(&chars("+")), None);
    assert_eq!(parse_usize_chars(&chars("-1")), None);
    assert_eq!(parse_usize_chars(&chars("")), None);
    assert_eq!(parse_usize_chars(&chars("12a")), None);
}

#[test]
fn parse_error_and_loader_construction() {
    let e = ParseError::new(ParseErrorKind::ExpectedFloat, Some(12));
    assert!(matches!(e.kind, ParseErrorKind::ExpectedFloat));
    assert_eq!(e.line, Some(12));
    let _loader = ObjLoader::new();
}
