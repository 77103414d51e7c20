use semi1d::pyvi::{to_string, PyVi};

fn cells(v: &[f64]) -> Vec<String> {
    v.iter().map(|x| format!("{:.17e}", x)).collect()
}

#[test]
fn to_string_copies() {
    assert_eq!(to_string("potential"), "potential".to_string());
    assert_eq!(to_string(""), String::new());
}

#[test]
fn vector_as_string_joins_with_commas() {
    let v = vec!["1".to_string(), "2".to_string(), "3".to_string()];
    assert_eq!(PyVi::vector_as_string(&v), "1,2,3");
    assert_eq!(PyVi::vector_as_string(&vec!["x".to_string()]), "x");
    assert_eq!(PyVi::vector_as_string(&vec![]), "");
}

#[test]
fn scientific_cells_round_into_file() {
    let v = cells(&[0.5, -2.0]);
    assert_eq!(PyVi::vector_as_string(&v), "5.00000000000000000e-1,-2.00000000000000000e0");
}

#[test]
fn empty_file_layout() {
    let f = PyVi::create("data.pyvi");
    assert_eq!(f.filename(), "data.pyvi");
    assert_eq!(f.render(), "[Parameter]\n[Section]\n");
}

#[test]
fn full_file_layout() {
    let mut f = PyVi::create("out.pyvi");
    f.create_parameter("x", vec!["0".to_string(), "1".to_string()]);
    f.create_section("potential", "x");
    f.create_section("n", "x");
    assert!(f.has_section("potential"));
    assert!(!f.has_section("p"));
    f.push_to_section("potential", vec!["a".to_string(), "b".to_string()]);
    f.push_to_section("potential", vec!["c".to_string(), "d".to_string()]);
    assert_eq!(
        f.render(),
        "[Parameter]\nx:0,1\n[Section]\n(potential)->[x]\nI[0]=a,b\nI[1]=c,d\n\n(n)->[x]\n\n"
    );
}

#[test]
fn row_tags_count_past_nine() {
    let mut f = PyVi::create("rows.pyvi");
    f.create_section("s", "x");
    for i in 0..12 {
        f.push_to_section("s", vec![i.to_string()]);
    }
    let text = f.render();
    assert!(text.contains("I[9]=9\nI[10]=10\nI[11]=11\n\n"));
}

#[test]
fn parameter_is_replaced_in_place() {
    let mut f = PyVi::create("p.pyvi");
    f.create_parameter("x", vec!["1".to_string()]);
    f.create_parameter("y", vec!["2".to_string()]);
    f.create_parameter("x", vec!["3".to_string()]);
    assert_eq!(f.render(), "[Parameter]\nx:3\ny:2\n[Section]\n");
}

#[test]
fn section_is_reset_when_created_again() {
    let mut f = PyVi::create("s.pyvi");
    f.create_section("a", "x");
    f.push_to_section("a", vec!["1".to_string()]);
    f.create_section("a", "t");
    assert_eq!(f.render(), "[Parameter]\n[Section]\n(a)->[t]\n\n");
}
