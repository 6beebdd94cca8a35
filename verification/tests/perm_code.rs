use jimo::perm_code::PermCode;

fn code(s: &str) -> PermCode {
    PermCode::try_from_str(s).unwrap()
}

#[test]
fn new_accepts_dotted_upper_case_codes() {
    assert_eq!(PermCode::new("POST.EDIT".to_string()).unwrap().as_str(), "POST.EDIT");
    assert_eq!(PermCode::new("A_B".to_string()).unwrap().as_str(), "A_B");
    assert_eq!(PermCode::new("A.B_C.D".to_string()).unwrap().as_str(), "A.B_C.D");
}

#[test]
fn new_refuses_invalid_codes() {
    for bad in ["", ".", "A.", ".A", "A..B", "a", "POST.edit", "A-B", "A B", "É"] {
        let err = PermCode::new(bad.to_string()).unwrap_err();
        assert_eq!(err.as_str(), bad);
        assert_eq!(err.message(), format!("Invalid perm code: {}", bad));
    }
}

#[test]
fn try_from_str_matches_new() {
    assert!(PermCode::try_from_str("ADMIN").is_ok());
    assert!(PermCode::try_from_str("ADMIN.").is_err());
    assert_eq!(PermCode::try_from_str("X.Y").unwrap(), PermCode::new("X.Y".to_string()).unwrap());
}

#[test]
fn unchecked_and_empty_codes() {
    let c = PermCode::new_unchecked("lower.case".to_string());
    assert_eq!(c.as_str(), "lower.case");
    assert!(!c.is_valid());
    let e = PermCode::empty();
    assert!(e.is_empty());
    assert_eq!(e.len(), 0);
    assert_eq!(PermCode::default(), e);
}

#[test]
fn push_adds_segments() {
    let mut c = PermCode::empty();
    c.push("POST".to_string()).unwrap();
    assert_eq!(c.as_str(), "POST");
    c.push("EDIT".to_string()).unwrap();
    assert_eq!(c.as_str(), "POST.EDIT");
    assert_eq!(c.len(), 2);
}

#[test]
fn push_refuses_invalid_segment_and_keeps_code() {
    let mut c = code("POST");
    let err = c.push("A.B".to_string()).unwrap_err();
    assert_eq!(err.as_str(), "A.B");
    assert_eq!(c.as_str(), "POST");
    assert!(c.push(String::new()).is_err());
    assert!(c.push("edit".to_string()).is_err());
    assert_eq!(c.as_str(), "POST");
}

#[test]
fn push_unchecked_adds_anything() {
    let mut c = code("POST");
    c.push_unchecked("x".to_string());
    assert_eq!(c.as_str(), "POST.x");
    let mut e = PermCode::empty();
    e.push_unchecked("y".to_string());
    assert_eq!(e.as_str(), "y");
}

#[test]
fn len_counts_segments() {
    assert_eq!(code("A").len(), 1);
    assert_eq!(code("A.B.C").len(), 3);
    assert_eq!(PermCode::new_unchecked("A..".to_string()).len(), 3);
}

#[test]
fn parent_and_last() {
    let c = code("POST.COMMENT.EDIT");
    assert_eq!(c.parent().unwrap().as_str(), "POST.COMMENT");
    assert_eq!(c.last().unwrap(), "EDIT");
    let top = code("POST");
    assert!(top.parent().is_none());
    assert_eq!(top.last().unwrap(), "POST");
    assert_eq!(PermCode::empty().last().unwrap(), "");
}

#[test]
fn push_then_parent_gives_back_code() {
    let mut c = code("POST.COMMENT");
    c.push("EDIT".to_string()).unwrap();
    assert_eq!(c.parent().unwrap(), code("POST.COMMENT"));
    assert_eq!(c.last().unwrap(), "EDIT");
    assert!(c.is_valid());
}

#[test]
fn is_child_of_compares_parent() {
    let c = code("POST.EDIT");
    assert!(c.is_child_of("POST"));
    assert!(!c.is_child_of("POS"));
    assert!(!c.is_child_of("POST.EDIT"));
    assert!(!code("POST").is_child_of(""));
}

#[test]
fn ancestors_are_prefixes_before_dots() {
    let c = code("A.B.C");
    let names: Vec<String> = c.ancestors().iter().map(|a| a.as_str().to_string()).collect();
    assert_eq!(names, vec!["A".to_string(), "A.B".to_string()]);
    assert!(code("A").ancestors().is_empty());
    for a in c.ancestors() {
        assert!(a.is_ancestor_of(&c));
        assert!(c.is_descendant_of(&a));
    }
    assert_eq!(c.ancestors().len() + 1, c.len());
}

#[test]
fn ancestor_relation() {
    let a = code("POST");
    let b = code("POST.EDIT");
    let d = code("POSTER");
    assert!(a.is_ancestor_of(&b));
    assert!(a.is_ancestor_of(&a));
    assert!(!b.is_ancestor_of(&a));
    assert!(!a.is_ancestor_of(&d));
    assert!(!PermCode::empty().is_ancestor_of(&a));
    assert!(!a.is_ancestor_of(&PermCode::empty()));
    assert!(b.is_descendant_of(&a));
    let c = code("POST.EDIT.OWN");
    assert!(a.is_ancestor_of(&c));
}

#[test]
fn to_vec_and_from_vec_round_trip() {
    let c = code("POST.COMMENT.EDIT");
    let parts = c.to_vec();
    assert_eq!(parts, vec!["POST", "COMMENT", "EDIT"]);
    assert_eq!(c.iter(), parts);
    assert_eq!(PermCode::from_vec(parts).unwrap(), c);
    assert_eq!(PermCode::empty().to_vec(), vec![String::new()]);
}

#[test]
fn from_vec_checks_joined_code() {
    let err = PermCode::from_vec(vec!["A".to_string(), String::new()]).unwrap_err();
    assert_eq!(err.as_str(), "A.");
    assert!(PermCode::from_vec(vec![]).is_err());
    assert_eq!(PermCode::from_vec(vec!["A.B".to_string(), "C".to_string()]).unwrap().as_str(), "A.B.C");
}

#[test]
fn clone_and_to_string() {
    let c = code("A.B");
    assert_eq!(c.clone(), c);
    assert_eq!(c.to_string(), "A.B");
    assert_ne!(c, code("A.C"));
}

#[test]
fn code_converts_into_its_text() {
    let c = code("POST.EDIT");
    assert_eq!(AsRef::<str>::as_ref(&c), "POST.EDIT");
    let s: String = c.into();
    assert_eq!(s, "POST.EDIT");
}

#[test]
fn segment_counts_follow_dots() {
    assert_eq!(PermCode::empty().len(), 0);
    assert_eq!(code("A").len(), 1);
    assert_eq!(PermCode::new_unchecked("..".to_string()).len(), 3);
    let mut c = code("A.B");
    c.push("C".to_string()).unwrap();
    assert_eq!(c.len(), 3);
    assert!(c.is_valid());
    let mut e = PermCode::empty();
    e.push("A".to_string()).unwrap();
    assert_eq!(e.len(), 1);
}

#[test]
fn parent_has_one_segment_fewer() {
    let c = code("A.B.C");
    let p = c.parent().unwrap();
    assert_eq!(p.as_str(), "A.B");
    assert_eq!(p.len(), c.len() - 1);
    assert!(p.is_valid());
    assert!(code("ABC").parent().is_none());
}

#[test]
fn ancestors_are_the_proper_ancestors_shortest_first() {
    let c = code("A.B.C");
    let a = c.ancestors();
    assert_eq!(a.iter().map(|x| x.as_str().to_string()).collect::<Vec<_>>(), vec!["A", "A.B"]);
    assert_eq!(a.len(), c.len() - 1);
    for (i, x) in a.iter().enumerate() {
        assert_eq!(x.len(), i + 1);
        assert!(x.is_ancestor_of(&c));
        assert!(x != &c);
    }
}

#[test]
fn pieces_join_back() {
    let c = code("A.B.C");
    assert_eq!(c.to_vec().join("."), "A.B.C");
    assert_eq!(c.to_vec().len(), c.len());
    assert_eq!(PermCode::empty().to_vec(), vec![String::new()]);
    let v = vec!["X".to_string(), "Y_Z".to_string()];
    assert_eq!(PermCode::from_vec(v.clone()).unwrap().to_vec(), v);
}

#[test]
fn codes_from_valid_texts() {
    assert_eq!(PermCode::from_string("A.B".to_string()).as_str(), "A.B");
    assert_eq!(PermCode::from_text("POST").as_str(), "POST");
}
