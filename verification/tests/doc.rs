use magi_core::doc::{layout_requirements, requirement_header, Requirement};

fn req(id: &str, description: &str) -> Requirement {
    Requirement {
        id: id.to_string(),
        title: format!("Title {}", id),
        kind: "FR".to_string(),
        description: description.to_string(),
    }
}

#[test]
fn the_title_comes_first_then_each_requirement() {
    let out = layout_requirements(&vec![req("FR-001", "line one\nline two")]);
    let rows: Vec<(usize, u32, i128, u32, String)> =
        out.into_iter().map(|p| (p.page, p.x_mm, p.y_mm, p.font_size, p.text)).collect();
    assert_eq!(
        rows,
        vec![
            (0, 20, 280, 24, "Project Requirements".to_string()),
            (0, 20, 265, 12, "[FR-001] Title FR-001 (FR)".to_string()),
            (0, 25, 258, 10, "line one".to_string()),
            (0, 25, 253, 10, "line two".to_string()),
        ]
    );
    assert_eq!(requirement_header(&req("X", "")), "[X] Title X (FR)");
}

#[test]
fn a_new_page_starts_below_30_mm() {
    // Fifty lines take 7 + 250 + 5 mm, ending at 3 mm.
    let long = vec!["l"; 50].join("\n");
    let out = layout_requirements(&vec![req("A", &long), req("B", "x")]);
    let b = out.iter().find(|p| p.text.starts_with("[B]")).unwrap();
    assert_eq!(b.page, 1);
    assert_eq!(b.y_mm, 280);
    let a_last = &out[out.len() - 3];
    assert_eq!(a_last.page, 0);
    assert_eq!(a_last.y_mm, 265 - 7 - 5 * 49);
}
