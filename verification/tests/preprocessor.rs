use unrust::glsl::preprocessor::process::{preprocess, preprocess_bounded};

#[test]
fn preprocess_func_macro() {
    let test_text = " #define F(A,B)   A+B+B+A\r\n            F((1+3),2)\r\n        ";
    let r = preprocess(test_text, &Vec::new()).unwrap();
    assert_eq!(r.trim(), "( 1 + 3 ) + 2 + 2 + ( 1 + 3 )");
}

#[test]
fn bounded_preprocess_matches_unbounded() {
    let text = "#define A B\n#define B 7\nx = A;\n";
    let full = preprocess(text, &Vec::new()).unwrap();
    // A expands to B in the first pass, B to 7 in the second, and the third
    // finds nothing left: two passes after the first.
    assert!(preprocess_bounded(text, &Vec::new(), 0).is_none());
    assert!(preprocess_bounded(text, &Vec::new(), 1).is_none());
    let bounded = preprocess_bounded(text, &Vec::new(), 2).unwrap().unwrap();
    assert_eq!(bounded, full);
    assert_eq!(full.split_whitespace().collect::<Vec<_>>(), vec!["x", "=", "7", ";"]);
    assert_eq!(preprocess_bounded(text, &Vec::new(), 50).unwrap().unwrap(), full);
}

#[test]
fn bounded_preprocess_stops_a_macro_that_expands_to_itself() {
    let text = "#define L L + 1\ny = L;\n";
    assert!(preprocess_bounded(text, &Vec::new(), 100).is_none());
}

#[test]
fn bounded_preprocess_reports_errors() {
    let text = "#ifdef X\nx;\n";
    let e = preprocess_bounded(text, &Vec::new(), 5).unwrap().unwrap_err();
    assert_eq!(e.0, "Preprocess Failure: #ifdef block without #endif");
}
