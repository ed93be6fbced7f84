use chiselstore::query::{query_results_pr, QueryRow};

#[test]
fn query_rows_to_wire() {
    let rows = vec![
        vec!["1".to_string(), "alice".to_string()],
        vec![],
        vec!["3".to_string(), "".to_string()],
    ];
    let res = query_results_pr(rows);
    assert_eq!(
        res.rows,
        vec![
            QueryRow { values: vec!["1".to_string(), "alice".to_string()] },
            QueryRow { values: vec![] },
            QueryRow { values: vec!["3".to_string(), "".to_string()] },
        ]
    );
}

#[test]
fn query_no_rows() {
    assert!(query_results_pr(vec![]).rows.is_empty());
}
