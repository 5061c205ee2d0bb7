use chatui::widgets::message_bubble::MessageBubble;

#[test]
fn test_draw_prompt() {
    let mut bbl = MessageBubble::new(20, "hello", "kevin");
    bbl.draw_prompt();
    bbl.draw_bubble_frame();
    bbl.draw_message_content();
    for i in 0..bbl.painting.len() {
        let mut line = String::new();
        for j in 0..bbl.painting[i].len() {
            line.push(bbl.painting[i][j]);
        }
        println!("{}", line);
    }
}

#[test]
fn bubble_sizing_hello_kevin() {
    // natural width: 5 content + 4 shift + 2 margin + 2 frame = 13, under the cap
    let mut bbl = MessageBubble::new(20, "hello", "kevin");
    bbl.finish_painting();
    assert_eq!(bbl.bubble_width, 13);
    assert_eq!(bbl.message_width, 5);
    // one message row between prompt foot/frame top and frame bottom
    assert_eq!(bbl.bubble_height, 4);
    assert_eq!(bbl.painting.len(), 4);
    for row in &bbl.painting {
        assert_eq!(row.len(), 13);
    }
    // first row: prompt corner, shift, then the author in angle brackets
    let first: String = bbl.painting[0].iter().collect();
    assert_eq!(first, "\u{2554}\u{2550}\u{2550}\u{2550}<kevin>  ");
    // second row: prompt foot and colon, then the frame top
    let second: String = bbl.painting[1].iter().collect();
    assert_eq!(
        second,
        "\u{255A}\u{2550}\u{2550}:\u{256D}\u{2500}\u{2500}\u{2500}\u{2500}\u{2500}\u{2500}\u{2500}\u{256E}"
    );
    // content row: side bars, margin, and the message at the documented offset
    let third: String = bbl.painting[2].iter().collect();
    assert_eq!(third, "    \u{2502} hello \u{2502}");
    assert_eq!(bbl.painting[2][6], 'h');
    // frame bottom
    let fourth: String = bbl.painting[3].iter().collect();
    assert_eq!(
        fourth,
        "    \u{2570}\u{2500}\u{2500}\u{2500}\u{2500}\u{2500}\u{2500}\u{2500}\u{256F}"
    );
}

#[test]
fn bubble_width_capped_and_wrapped() {
    // 16 characters of content would need width 24; the cap of 20 leaves
    // an inner width of 12, so the text wraps onto two rows
    let mut bbl = MessageBubble::new(20, "sixteen chars ok", "kevin");
    bbl.finish_painting();
    assert_eq!(bbl.bubble_width, 20);
    assert_eq!(bbl.message_width, 12);
    assert_eq!(bbl.bubble_height, 5);
    let row2: String = bbl.painting[2].iter().collect();
    let row3: String = bbl.painting[3].iter().collect();
    assert_eq!(row2, "    \u{2502} sixteen char \u{2502}");
    assert_eq!(row3, "    \u{2502} s ok         \u{2502}");
}

#[test]
fn bubble_author_clipped_at_edge() {
    let mut bbl = MessageBubble::new(9, "x", "averylongauthorname");
    bbl.finish_painting();
    assert_eq!(bbl.bubble_width, 9);
    let first: String = bbl.painting[0].iter().collect();
    assert_eq!(first, "\u{2554}\u{2550}\u{2550}\u{2550}<aver");
}
