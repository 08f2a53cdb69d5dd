use invoicely::components::label::Label;
use invoicely::components::Component;
use invoicely::instruction::Instruction;
use invoicely::units::whole;
use printpdf::FontId;

#[test]
fn test_label_new() {
    let label = Label::new("Test Label", whole(12), &FontId::new());
    assert_eq!(label.value, "Test Label");
    assert_eq!(label.font_size, whole(12));
}

#[test]
fn test_label_new_row() {
    let row_data = vec!["Header1", "Header2", "Header3"];
    let labels = Label::new_row(row_data, whole(12), &FontId::new());
    assert_eq!(labels.len(), 3);
}

#[test]
fn test_label_new_rows() {
    let rows_data = vec![
        vec!["Row1Col1", "Row1Col2"],
        vec!["Row2Col1", "Row2Col2"],
        vec!["Row3Col1", "Row3Col2"],
    ];
    let labels = Label::new_rows(rows_data, whole(12), &FontId::new());
    assert_eq!(labels.len(), 3);
    assert_eq!(labels[0].len(), 2);
    assert_eq!(labels[1].len(), 2);
    assert_eq!(labels[2].len(), 2);
}

#[test]
fn test_multi_line_label() {
    let multi_line_text = "Line 1\nLine 2\nLine 3";
    let label = Label::new(multi_line_text, whole(12), &FontId::new());
    assert_eq!(label.value, multi_line_text);

    let ops = label.render_at(whole(10), whole(100));
    assert_eq!(ops.len(), 15);
}

#[test]
fn label_lines_descend_by_half_the_font_size() {
    let font = FontId::new();
    let label = Label::new("Line 1\nLine 2\nLine 3", whole(12), &font);
    let ops = label.render_at(whole(10), whole(100));
    let expected_y = [100_000i64, 94_000, 88_000];
    let expected_text = ["Line 1", "Line 2", "Line 3"];
    for i in 0..3 {
        assert_eq!(ops[5 * i], Instruction::SetFont { size: 12_000, font: font.clone() });
        assert_eq!(ops[5 * i + 1], Instruction::BeginText);
        assert_eq!(ops[5 * i + 2], Instruction::SetCursor { x: 10_000, y: expected_y[i] });
        assert_eq!(
            ops[5 * i + 3],
            Instruction::WriteText { text: expected_text[i].to_string(), font: font.clone() }
        );
        assert_eq!(ops[5 * i + 4], Instruction::EndText);
    }
}

#[test]
fn label_has_one_group_of_five_for_each_line() {
    let font = FontId::new();
    let cases =
        [("", 0usize), ("a", 0), ("\n", 1), ("a\n", 1), ("\na", 1), ("a\n\nb", 2), ("\n\n\n", 3)];
    for (text, breaks) in cases {
        let label = Label::new(text, whole(10), &font);
        let here = label.render_at(0, 0);
        let there = label.render_at(whole(-40), whole(900));
        assert_eq!(here.len(), 5 * (breaks + 1));
        assert_eq!(there.len(), here.len());
    }
}

#[test]
fn empty_label_writes_one_empty_line() {
    let font = FontId::new();
    let ops = Label::new("", whole(11), &font).render_at(whole(15), whole(140));
    assert_eq!(
        ops,
        vec![
            Instruction::SetFont { size: 11_000, font: font.clone() },
            Instruction::BeginText,
            Instruction::SetCursor { x: 15_000, y: 140_000 },
            Instruction::WriteText { text: String::new(), font: font.clone() },
            Instruction::EndText,
        ]
    );
}

#[test]
fn label_keeps_empty_lines_between_breaks() {
    let font = FontId::new();
    let ops = Label::new("a\n\nb\n", whole(11), &font).render_at(0, whole(10));
    let mut lines = Vec::new();
    let mut heights = Vec::new();
    for op in &ops {
        match op {
            Instruction::WriteText { text, .. } => lines.push(text.clone()),
            Instruction::SetCursor { y, .. } => heights.push(*y),
            _ => {}
        }
    }
    assert_eq!(lines, vec!["a", "", "b", ""]);
    assert_eq!(heights, vec![10_000, 4_500, -1_000, -6_500]);
}

#[test]
fn label_line_height_halves_towards_zero() {
    let font = FontId::new();
    let ops = Label::new("a\nb", 7, &font).render_at(0, 0);
    assert_eq!(ops[7], Instruction::SetCursor { x: 0, y: -3 });
    let ops = Label::new("a\nb", -7, &font).render_at(0, 0);
    assert_eq!(ops[7], Instruction::SetCursor { x: 0, y: 3 });
}

#[test]
fn label_lines_stop_at_the_lower_end_of_the_range() {
    let font = FontId::new();
    let ops = Label::new("a\nb\nc", whole(12), &font).render_at(0, i64::MIN + 7_000);
    assert_eq!(ops[2], Instruction::SetCursor { x: 0, y: i64::MIN + 7_000 });
    assert_eq!(ops[7], Instruction::SetCursor { x: 0, y: i64::MIN + 1_000 });
    assert_eq!(ops[12], Instruction::SetCursor { x: 0, y: i64::MIN });
}

#[test]
fn new_row_and_new_rows_make_labels_in_order() {
    let font = FontId::new();
    let rows = Label::new_rows(vec![vec!["a", "b"], vec![], vec!["c"]], whole(7), &font);
    assert_eq!(rows.len(), 3);
    assert_eq!(rows[1].len(), 0);
    let mut texts = Vec::new();
    for row in &rows {
        for cell in row {
            match cell {
                invoicely::components::Drawable::Label(label) => {
                    assert_eq!(label.font_size, 7_000);
                    assert_eq!(label.font_id, font);
                    texts.push(label.value.clone());
                }
                invoicely::components::Drawable::Table(_) => panic!("a label was expected"),
            }
        }
    }
    assert_eq!(texts, vec!["a", "b", "c"]);
}
