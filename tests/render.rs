use plotcmd::{FileInput, Input, Plot, Style};

#[test]
fn style_names_are_exact() {
    assert_eq!(Style::Points.to_string(), "points");
    assert_eq!(Style::Lines.to_string(), "lines");
    assert_eq!(Style::LinesPoints.to_string(), "linespoints");
}

#[test]
fn range_and_raw_inputs_scenario() {
    let mut p = Plot::new();
    p.persist().range("[][-2:2]").input("sin(x)").input("x").input("x-(x**3)");
    assert_eq!(p.render(), "plot [][-2:2] sin(x),x,x-(x**3) \n");
    assert_eq!(p.args().clone(), vec!["--persist".to_string()]);
}

#[test]
fn file_inputs_scenario() {
    let mut p = Plot::new();
    p.persist()
        .input(FileInput::new("dataset/prices").using("1:2").with(Style::Lines))
        .input(FileInput::new("dataset/prices").using("1:3").with(Style::LinesPoints));
    assert_eq!(
        p.render(),
        "plot \"dataset/prices\" using 1:2 with lines,\"dataset/prices\" using 1:3 with linespoints \n"
    );
    assert_eq!(p.args().clone(), vec!["--persist".to_string()]);
}

#[test]
fn mixed_inputs_keep_insertion_order() {
    let mut p = Plot::new();
    p.input("a").input(FileInput::new("f")).input("b");
    assert_eq!(p.render(), "plot a,\"f\",b \n");
}

#[test]
fn no_range_omits_token() {
    let mut p = Plot::new();
    p.input("x");
    assert_eq!(p.render(), "plot x \n");
}

#[test]
fn range_is_followed_by_one_space() {
    let mut p = Plot::new();
    p.range("[0:1]").input("x");
    assert_eq!(p.render(), "plot [0:1] x \n");
}

#[test]
fn later_range_replaces_earlier() {
    let mut p = Plot::new();
    p.range("[0:1]").range("[2:3]").input("x");
    assert_eq!(p.render(), "plot [2:3] x \n");
}

#[test]
fn empty_plot_renders_bare_directive() {
    let p = Plot::new();
    assert_eq!(p.render(), "plot  \n");
    assert!(p.args().is_empty());
}

#[test]
fn persist_twice_appends_flag_twice() {
    let mut p = Plot::new();
    p.persist().persist();
    assert_eq!(
        p.args().clone(),
        vec!["--persist".to_string(), "--persist".to_string()]
    );
}

#[test]
fn file_input_without_options_is_quoted_path() {
    assert_eq!(FileInput::new("data.txt").to_string(), "\"data.txt\"");
}

#[test]
fn file_input_path_is_escaped() {
    assert_eq!(FileInput::new("a\"b").to_string(), "\"a\\\"b\"");
}

#[test]
fn file_input_using_only() {
    assert_eq!(FileInput::new("d").using("2:4").to_string(), "\"d\" using 2:4");
}

#[test]
fn file_input_with_only() {
    assert_eq!(FileInput::new("d").with(Style::Points).to_string(), "\"d\" with points");
}

#[test]
fn file_input_later_options_replace_earlier() {
    let f = FileInput::new("d").using("1:2").with(Style::Lines).using("1:3").with(Style::Points);
    assert_eq!(f.to_string(), "\"d\" using 1:3 with points");
}

#[test]
fn input_from_str_is_raw() {
    let i = Input::from("cos(x)");
    assert!(matches!(i, Input::Raw(ref s) if s == "cos(x)"));
    assert_eq!(i.to_string(), "cos(x)");
}

#[test]
fn input_from_file_input_renders_file() {
    let i = Input::from(FileInput::new("d").using("1:2"));
    assert!(matches!(i, Input::File(_)));
    assert_eq!(i.to_string(), "\"d\" using 1:2");
}
