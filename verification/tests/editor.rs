use notes_tui::document::{
    inlines_from_text, text_from_inlines, Block, Inline, ListItem, RichDocument,
};
use notes_tui::editor::{targets, EditorDocument, EditorError, EditorTarget, InlineStyle, TargetKind};

fn text(value: &str) -> Vec<Inline> {
    inlines_from_text(value.to_owned())
}

fn item(value: &str) -> ListItem {
    ListItem { content: text(value) }
}

fn target(block_index: usize) -> EditorTarget {
    EditorTarget::Block { block_index }
}

fn list_target(block_index: usize, item_index: usize) -> EditorTarget {
    EditorTarget::ListItem { block_index, item_index }
}

#[test]
fn unicode_typing_backspace_and_delete_are_char_safe() {
    let mut editor = EditorDocument::from_plaintext("Grüße ✅ русский");
    let target = editor.first_target();
    let end = editor.char_len(target).unwrap();
    assert_eq!(editor.insert_char(target, end, '🍎').unwrap(), end + 1);
    assert_eq!(editor.backspace(target, end + 1).unwrap(), end);
    let check = "Grüße ".chars().count();
    editor.delete_char(target, check).unwrap();
    assert_eq!(editor.target_text(target).unwrap(), "Grüße  русский");
}

#[test]
fn mixed_inline_edit_preserves_neighbor_styles() {
    let mut editor = EditorDocument::new(RichDocument {
        blocks: vec![Block::Paragraph(vec![
            Inline::Bold(text("Bold")),
            Inline::Text(" ".into()),
            Inline::Italic(text("italic")),
        ])],
    });
    editor.insert_char(target(0), 2, 'X').unwrap();
    assert_eq!(editor.target_text(target(0)).unwrap(), "BoXld italic");
    assert!(matches!(
        &editor.document.blocks[0],
        Block::Paragraph(items)
            if matches!(&items[0], Inline::Bold(children) if text_from_inlines(children) == "BoXld")
                && matches!(&items[2], Inline::Italic(children) if text_from_inlines(children) == "italic")
    ));
}

#[test]
fn target_navigation_visits_individual_list_items() {
    let editor = EditorDocument::new(RichDocument {
        blocks: vec![
            Block::Paragraph(text("before")),
            Block::BulletList(vec![item("one"), item("two")]),
            Block::CodeBlock("after".into()),
        ],
    });
    assert_eq!(editor.next_target(target(0)), list_target(1, 0));
    assert_eq!(editor.next_target(list_target(1, 0)), list_target(1, 1));
    assert_eq!(editor.next_target(list_target(1, 1)), target(2));
    assert_eq!(editor.previous_target(target(2)), list_target(1, 1));
}

#[test]
fn list_item_mutations_are_isolated() {
    let mut editor = EditorDocument::new(RichDocument {
        blocks: vec![Block::BulletList(vec![item("Alpha"), item("Beta")])],
    });
    let second = list_target(0, 1);
    editor.insert_char(second, 4, 'X').unwrap();
    editor.backspace(second, 5).unwrap();
    editor.delete_char(second, 0).unwrap();
    editor.toggle_style(second, InlineStyle::Bold).unwrap();
    assert_eq!(editor.target_text(list_target(0, 0)).unwrap(), "Alpha");
    assert_eq!(editor.target_text(second).unwrap(), "eta");
    assert!(matches!(
        &editor.document.blocks[0],
        Block::BulletList(items) if matches!(&items[1].content[..], [Inline::Bold(_)])
    ));
}

#[test]
fn enter_inserts_an_item_inside_each_list_kind() {
    for block in [
        Block::BulletList(vec![item("one"), item("two")]),
        Block::NumberedList(vec![item("one"), item("two")]),
    ] {
        let mut editor = EditorDocument::new(RichDocument {
            blocks: vec![block],
        });
        let inserted = editor.insert_after(list_target(0, 0)).unwrap();
        assert_eq!(inserted, list_target(0, 1));
        assert_eq!(editor.target_text(inserted).unwrap(), "");
        assert_eq!(editor.target_text(list_target(0, 2)).unwrap(), "two");
    }
}

#[test]
fn middle_list_item_splits_into_an_ordinary_block() {
    for kind in [
        TargetKind::Paragraph,
        TargetKind::Heading1,
        TargetKind::Heading2,
        TargetKind::Heading3,
        TargetKind::Quote,
        TargetKind::Code,
    ] {
        let mut editor = EditorDocument::new(RichDocument {
            blocks: vec![Block::BulletList(vec![
                item("one"),
                item("TWO"),
                item("three"),
            ])],
        });
        let converted = editor.convert_target(list_target(0, 1), kind).unwrap();
        assert_eq!(converted, target(1));
        assert_eq!(editor.target_text(converted).unwrap(), "TWO");
        assert_eq!(editor.target_text(list_target(0, 0)).unwrap(), "one");
        assert_eq!(editor.target_text(list_target(2, 0)).unwrap(), "three");
    }
}

#[test]
fn list_split_handles_first_last_only_and_numbered_items() {
    for (source, item_index, expected_target, expected_blocks) in [
        (
            Block::BulletList(vec![item("one"), item("two"), item("three")]),
            0,
            target(0),
            2,
        ),
        (
            Block::BulletList(vec![item("one"), item("two"), item("three")]),
            2,
            target(1),
            2,
        ),
        (Block::BulletList(vec![item("only")]), 0, target(0), 1),
        (
            Block::NumberedList(vec![item("one"), item("two"), item("three")]),
            1,
            target(1),
            3,
        ),
        (Block::NumberedList(vec![item("only")]), 0, target(0), 1),
    ] {
        let expected_text = match &source {
            Block::BulletList(items) | Block::NumberedList(items) => {
                text_from_inlines(&items[item_index].content)
            }
            _ => unreachable!(),
        };
        let mut editor = EditorDocument::new(RichDocument {
            blocks: vec![source],
        });
        let converted = editor
            .convert_target(list_target(0, item_index), TargetKind::Paragraph)
            .unwrap();
        assert_eq!(converted, expected_target);
        assert_eq!(editor.document.blocks.len(), expected_blocks);
        assert_eq!(editor.target_text(converted).unwrap(), expected_text);
        assert!(editor.validate_target(converted));
    }
}

#[test]
fn list_kind_conversion_moves_only_the_current_item() {
    let mut editor = EditorDocument::new(RichDocument {
        blocks: vec![Block::BulletList(vec![
            item("one"),
            item("TWO"),
            item("three"),
        ])],
    });
    let converted = editor
        .convert_target(list_target(0, 1), TargetKind::Numbered)
        .unwrap();
    assert_eq!(converted, list_target(1, 0));
    assert!(matches!(editor.document.blocks[0], Block::BulletList(_)));
    assert!(matches!(editor.document.blocks[1], Block::NumberedList(_)));
    assert!(matches!(editor.document.blocks[2], Block::BulletList(_)));
    assert_eq!(editor.target_text(converted).unwrap(), "TWO");
    let converted = editor
        .convert_target(converted, TargetKind::Bullet)
        .unwrap();
    assert_eq!(converted, list_target(0, 1));
    assert_eq!(editor.document.blocks.len(), 1);
}

#[test]
fn paragraph_to_list_merges_neighbors_and_remaps_target() {
    for (kind, block) in [
        (TargetKind::Bullet, Block::BulletList(vec![item("one")])),
        (TargetKind::Numbered, Block::NumberedList(vec![item("one")])),
    ] {
        let trailing = match block {
            Block::BulletList(_) => Block::BulletList(vec![item("three")]),
            Block::NumberedList(_) => Block::NumberedList(vec![item("three")]),
            _ => unreachable!(),
        };
        let mut editor = EditorDocument::new(RichDocument {
            blocks: vec![block, Block::Paragraph(text("two")), trailing],
        });
        let converted = editor.convert_target(target(1), kind).unwrap();
        assert_eq!(converted, list_target(0, 1));
        assert_eq!(editor.document.blocks.len(), 1);
        assert_eq!(editor.target_text(list_target(0, 0)).unwrap(), "one");
        assert_eq!(editor.target_text(list_target(0, 1)).unwrap(), "two");
        assert_eq!(editor.target_text(list_target(0, 2)).unwrap(), "three");
    }
}

#[test]
fn delete_target_prefers_next_then_previous_and_keeps_document_editable() {
    let mut editor = EditorDocument::new(RichDocument {
        blocks: vec![
            Block::Paragraph(text("before")),
            Block::BulletList(vec![item("one"), item("two")]),
            Block::Paragraph(text("after")),
        ],
    });
    let next = editor.delete_target(list_target(1, 0)).unwrap();
    assert_eq!(next, list_target(1, 0));
    assert_eq!(editor.target_text(next).unwrap(), "two");
    let next = editor.delete_target(next).unwrap();
    assert_eq!(next, target(1));
    assert_eq!(editor.target_text(next).unwrap(), "after");
    editor.delete_target(next).unwrap();
    let only = editor.delete_target(target(0)).unwrap();
    assert_eq!(only, target(0));
    assert_eq!(editor.target_text(only).unwrap(), "");
}

#[test]
fn code_blocks_are_editable_and_convertible() {
    let mut editor = EditorDocument::new(RichDocument {
        blocks: vec![Block::CodeBlock("日本語".into())],
    });
    let target = target(0);
    editor.insert_char(target, 3, '✅').unwrap();
    assert_eq!(editor.target_text(target).unwrap(), "日本語✅");
    let target = editor
        .convert_target(target, TargetKind::Paragraph)
        .unwrap();
    assert!(matches!(editor.document.blocks[0], Block::Paragraph(_)));
    assert_eq!(editor.target_text(target).unwrap(), "日本語✅");
}

#[test]
fn preservation_sequence_keeps_semantic_order_and_formatting() {
    let mut editor = EditorDocument::new(RichDocument {
        blocks: vec![
            Block::Heading1(text("Title")),
            Block::Paragraph(text("Intro")),
            Block::BulletList(vec![item("one"), item("two"), item("three")]),
            Block::Paragraph(text("Middle")),
            Block::NumberedList(vec![item("first"), item("second")]),
            Block::Quote(text("End")),
            Block::CodeBlock("Tail".into()),
        ],
    });
    editor
        .toggle_style(list_target(2, 1), InlineStyle::Bold)
        .unwrap();
    let extracted = editor
        .convert_target(list_target(2, 1), TargetKind::Paragraph)
        .unwrap();
    let numbered = editor
        .convert_target(extracted, TargetKind::Numbered)
        .unwrap();
    let bullet = editor
        .convert_target(list_target(6, 0), TargetKind::Bullet)
        .unwrap();

    assert_eq!(numbered, list_target(3, 0));
    assert_eq!(bullet, list_target(6, 0));
    assert_eq!(editor.document.blocks.len(), 10);
    let texts: Vec<_> = targets(&editor.document)
        .into_iter()
        .map(|target| editor.target_text(target).unwrap())
        .collect();
    assert_eq!(
        texts,
        [
            "Title", "Intro", "one", "two", "three", "Middle", "first", "second", "End",
            "Tail",
        ]
    );
    assert!(matches!(
        &editor.document.blocks[3],
        Block::NumberedList(items)
            if matches!(&items[0].content[..], [Inline::Bold(_)])
    ));
    assert!(matches!(editor.document.blocks[6], Block::BulletList(_)));
    assert!(matches!(editor.document.blocks[7], Block::NumberedList(_)));
    assert!(matches!(editor.document.blocks[8], Block::Quote(_)));
    assert!(matches!(editor.document.blocks[9], Block::CodeBlock(_)));
}

fn paragraph(value: &str) -> EditorDocument {
    EditorDocument::new(RichDocument { blocks: vec![Block::Paragraph(text(value))] })
}

#[test]
fn typing_then_backspace_gives_the_text_back() {
    let mut editor = paragraph("Grüße");
    let cursor = editor.insert_char(target(0), 2, '🍎').unwrap();
    assert_eq!(cursor, 3);
    assert_eq!(editor.target_text(target(0)).unwrap(), "Gr🍎üße");
    assert_eq!(editor.backspace(target(0), cursor).unwrap(), 2);
    assert_eq!(editor.target_text(target(0)).unwrap(), "Grüße");
}

#[test]
fn toggling_a_style_twice_takes_it_away_again() {
    for style in [InlineStyle::Bold, InlineStyle::Italic, InlineStyle::Underline] {
        let mut editor = paragraph("word");
        editor.toggle_style(target(0), style).unwrap();
        assert_eq!(editor.target_text(target(0)).unwrap(), "word");
        assert_ne!(editor, paragraph("word"));
        editor.toggle_style(target(0), style).unwrap();
        assert_eq!(editor, paragraph("word"));
    }
}

#[test]
fn code_takes_no_style_and_no_link() {
    let mut editor =
        EditorDocument::new(RichDocument { blocks: vec![Block::CodeBlock("let x;".into())] });
    assert!(editor.toggle_style(target(0), InlineStyle::Bold).is_err());
    assert!(editor.set_link(target(0), "https://example.test".into()).is_err());
    assert!(matches!(&editor.document.blocks[0], Block::CodeBlock(code) if code == "let x;"));
}

#[test]
fn a_link_holds_the_text_it_was_put_on() {
    let mut editor = paragraph("label");
    editor.set_link(target(0), "https://one.test".into()).unwrap();
    assert_eq!(editor.target_text(target(0)).unwrap(), "label");
    assert!(matches!(
        &editor.document.blocks[0],
        Block::Paragraph(items)
            if matches!(&items[..], [Inline::Link { label, href }]
                if href == "https://one.test" && text_from_inlines(label) == "label")
    ));
}

#[test]
fn a_target_outside_the_document_is_refused() {
    let mut editor = paragraph("only");
    for wrong in [target(1), list_target(0, 0)] {
        assert!(!editor.validate_target(wrong));
        assert_eq!(editor.target_text(wrong), Err(EditorError::InvalidTarget));
        assert_eq!(editor.char_len(wrong), Err(EditorError::InvalidTarget));
        assert_eq!(editor.insert_char(wrong, 0, 'x'), Err(EditorError::InvalidTarget));
        assert_eq!(editor.backspace(wrong, 1), Err(EditorError::InvalidTarget));
        assert_eq!(editor.delete_char(wrong, 0), Err(EditorError::InvalidTarget));
        assert_eq!(editor.insert_after(wrong), Err(EditorError::InvalidTarget));
        assert_eq!(editor.delete_target(wrong), Err(EditorError::InvalidTarget));
        assert_eq!(
            editor.convert_target(wrong, TargetKind::Bullet),
            Err(EditorError::InvalidTarget)
        );
        assert_eq!(editor.set_link(wrong, "x".into()), Err(EditorError::InvalidTarget));
        assert_eq!(
            editor.toggle_style(wrong, InlineStyle::Bold),
            Err(EditorError::InvalidTarget)
        );
    }
    assert_eq!(editor, paragraph("only"));
    assert_eq!(EditorError::InvalidTarget.message(), "invalid editor target");
}

#[test]
fn going_on_and_back_visits_every_line_once() {
    let editor = EditorDocument::new(RichDocument {
        blocks: vec![
            Block::Heading1(text("head")),
            Block::NumberedList(vec![item("one"), item("two")]),
            Block::Quote(text("tail")),
        ],
    });
    let mut at = editor.first_target();
    let mut seen = vec![at];
    while editor.next_target(at) != at {
        let next = editor.next_target(at);
        assert_eq!(editor.previous_target(next), at);
        at = next;
        seen.push(at);
    }
    assert_eq!(seen, targets(&editor.document));
    assert_eq!(editor.visual_index(list_target(1, 1)), Some(2));
    assert_eq!(editor.visual_index(target(1)), None);
}

#[test]
fn plain_text_becomes_one_paragraph_per_line() {
    let editor = EditorDocument::from_plaintext("one\ntwo");
    let texts: Vec<String> = targets(&editor.document)
        .into_iter()
        .map(|target| editor.target_text(target).unwrap())
        .collect();
    assert_eq!(texts, ["one", "two"]);
    assert_eq!(targets(&EditorDocument::empty().document), [target(0)]);
    assert_eq!(editor.clamp_cursor(target(0), 9).unwrap(), 3);
}

/// A document whose texts repeat, so that a target is known by its position alone.
fn repeating_document() -> RichDocument {
    RichDocument {
        blocks: vec![
            Block::Heading1(text("same")),
            Block::BulletList(vec![item("same"), item("same"), item("same")]),
            Block::Paragraph(text("same")),
            Block::BulletList(vec![item("same")]),
            Block::NumberedList(vec![item("same"), item("same")]),
            Block::CodeBlock("same".into()),
        ],
    }
}

fn kind_at(editor: &EditorDocument, target: EditorTarget) -> TargetKind {
    let block = match target {
        EditorTarget::Block { block_index } => block_index,
        EditorTarget::ListItem { block_index, .. } => block_index,
    };
    match editor.document.blocks[block] {
        Block::Paragraph(_) => TargetKind::Paragraph,
        Block::Heading1(_) => TargetKind::Heading1,
        Block::Heading2(_) => TargetKind::Heading2,
        Block::Heading3(_) => TargetKind::Heading3,
        Block::BulletList(_) => TargetKind::Bullet,
        Block::NumberedList(_) => TargetKind::Numbered,
        Block::Quote(_) => TargetKind::Quote,
        Block::CodeBlock(_) => TargetKind::Code,
    }
}

#[test]
fn a_converted_target_stays_in_place_and_has_its_kind() {
    let kinds = [
        TargetKind::Paragraph,
        TargetKind::Heading1,
        TargetKind::Heading2,
        TargetKind::Heading3,
        TargetKind::Bullet,
        TargetKind::Numbered,
        TargetKind::Quote,
        TargetKind::Code,
    ];
    for target in targets(&repeating_document()) {
        for kind in kinds {
            let mut editor = EditorDocument::new(repeating_document());
            let before = editor.visual_index(target);
            assert!(before.is_some());
            let converted = editor.convert_target(target, kind).unwrap();
            assert_eq!(editor.visual_index(converted), before);
            assert_eq!(kind_at(&editor, converted), kind);
            let texts: Vec<String> = targets(&editor.document)
                .into_iter()
                .map(|target| editor.target_text(target).unwrap())
                .collect();
            assert_eq!(texts, ["same"; 9]);
        }
    }
}

#[test]
fn a_conversion_keeps_the_styles_around_it() {
    let mut editor = EditorDocument::new(RichDocument {
        blocks: vec![Block::BulletList(vec![
            ListItem { content: vec![Inline::Bold(text("one"))] },
            ListItem { content: vec![Inline::Italic(text("two"))] },
            ListItem { content: vec![Inline::Underline(text("three"))] },
        ])],
    });
    editor.convert_target(list_target(0, 1), TargetKind::Quote).unwrap();
    assert_eq!(
        editor.document,
        RichDocument {
            blocks: vec![
                Block::BulletList(vec![ListItem { content: vec![Inline::Bold(text("one"))] }]),
                Block::Quote(vec![Inline::Italic(text("two"))]),
                Block::BulletList(vec![
                    ListItem { content: vec![Inline::Underline(text("three"))] },
                ]),
            ],
        }
    );
}
