use umod_codex::ui::{
    action_button_colors, draws_outline, icon_button_look, ButtonColors, Icon, ACCENT, CARD,
    CARD_ACTIVE, CARD_HOVER, DISABLED_BG, DISABLED_LINE, DISABLED_TEXT, LINE, LINE_HOVER, ON_ACCENT,
    PRIMARY_DISABLED_BG, PRIMARY_DISABLED_TEXT, PRIMARY_HOVER, PRIMARY_PRESSED, TEXT, TEXT_2,
    TRANSPARENT, WARN_BG, WARN_LINE,
};

#[test]
fn primary_button_colors() {
    assert_eq!(action_button_colors(true, true, false, false), ButtonColors { fill: ACCENT, line: TRANSPARENT, fg: ON_ACCENT });
    assert_eq!(action_button_colors(true, true, false, true).fill, PRIMARY_HOVER);
    assert_eq!(action_button_colors(true, true, true, true).fill, PRIMARY_PRESSED);
    // A button that cannot be pressed ignores the pointer.
    assert_eq!(
        action_button_colors(true, false, true, true),
        ButtonColors { fill: PRIMARY_DISABLED_BG, line: TRANSPARENT, fg: PRIMARY_DISABLED_TEXT }
    );
    assert_eq!(PRIMARY_DISABLED_BG, 0x2A3730FF);
}

#[test]
fn secondary_button_colors() {
    assert_eq!(action_button_colors(false, true, false, false), ButtonColors { fill: CARD, line: LINE, fg: TEXT_2 });
    assert_eq!(action_button_colors(false, true, false, true), ButtonColors { fill: CARD_HOVER, line: LINE_HOVER, fg: TEXT });
    assert_eq!(action_button_colors(false, true, true, false), ButtonColors { fill: CARD_ACTIVE, line: LINE_HOVER, fg: TEXT });
    assert_eq!(action_button_colors(false, false, true, true), ButtonColors { fill: DISABLED_BG, line: DISABLED_LINE, fg: DISABLED_TEXT });
}

#[test]
fn outline_only_when_visible() {
    assert!(!draws_outline(TRANSPARENT));
    assert!(draws_outline(LINE));
}

#[test]
fn icon_buttons() {
    let framed = Some((WARN_BG, WARN_LINE));
    let l = icon_button_look(framed, false, false, TEXT_2);
    assert_eq!((l.fill, l.outline, l.tint), (Some(WARN_BG), Some(WARN_LINE), TEXT_2));
    let l = icon_button_look(framed, true, true, TEXT_2);
    assert_eq!((l.fill, l.tint), (Some(CARD_ACTIVE), TEXT));
    let l = icon_button_look(framed, false, true, TEXT_2);
    assert_eq!(l.fill, Some(CARD_HOVER));
    let l = icon_button_look(None, false, false, TEXT_2);
    assert_eq!((l.fill, l.outline, l.tint), (None, None, TEXT_2));
    let l = icon_button_look(None, false, true, TEXT_2);
    assert_eq!((l.fill, l.outline, l.tint), (Some(CARD), None, TEXT));
}

#[test]
fn icons_compare() {
    assert_eq!(Icon::Play, Icon::Play);
    assert_ne!(Icon::Play, Icon::Stop);
    let all = [Icon::Play, Icon::Restart, Icon::Stop, Icon::Copy, Icon::Folder, Icon::Warn, Icon::Mark];
    assert_eq!(all.len(), 7);
}
