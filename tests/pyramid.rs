use cash_mario::pyramid::{pyramid_row_text, render_pyramid};

#[test]
fn pyramid_of_height_three() {
    assert_eq!(render_pyramid(3), vec!["  #  #", " ##  ##", "###  ###"]);
}

#[test]
fn pyramid_of_height_one() {
    assert_eq!(render_pyramid(1), vec!["#  #"]);
}

#[test]
fn pyramid_of_height_zero_has_no_rows() {
    assert!(render_pyramid(0).is_empty());
}

#[test]
fn pyramid_rows_have_the_stated_shape() {
    for h in 1..=12usize {
        let rows = render_pyramid(h);
        assert_eq!(rows.len(), h);
        for (r, line) in rows.iter().enumerate() {
            let expected = format!(
                "{}{}  {}",
                " ".repeat(h - r - 1),
                "#".repeat(r + 1),
                "#".repeat(r + 1)
            );
            assert_eq!(line, &expected);
            assert_eq!(line.len(), h + r + 3);
        }
    }
}

#[test]
fn single_pyramid_row() {
    assert_eq!(pyramid_row_text(4, 2), " ###  ###");
    assert_eq!(pyramid_row_text(4, 0), "   #  #");
    assert_eq!(pyramid_row_text(8, 7), "########  ########");
}
