use archive_menu::Accelerator;

#[test]
fn render_spells_modifiers_in_order() {
    assert_eq!(Accelerator::plain('F').render(), "F");
    assert_eq!(Accelerator::with_cmd_or_ctrl('F').render(), "CmdOrCtrl+F");
    assert_eq!(Accelerator::with_cmd_or_ctrl_shift('N').render(), "CmdOrCtrl+Shift+N");
    let all = Accelerator { cmd_or_ctrl: true, alt: true, shift: true, key: '9' };
    assert_eq!(all.render(), "CmdOrCtrl+Alt+Shift+9");
    let alt = Accelerator { cmd_or_ctrl: false, alt: true, shift: false, key: 'A' };
    assert_eq!(alt.render(), "Alt+A");
}

#[test]
fn parse_reads_what_render_wrote() {
    for cmd_or_ctrl in [false, true] {
        for alt in [false, true] {
            for shift in [false, true] {
                for key in ['A', 'C', 'S', 'Z', '0', '9'] {
                    let accelerator = Accelerator { cmd_or_ctrl, alt, shift, key };
                    assert!(accelerator.is_well_formed());
                    assert_eq!(Accelerator::parse(&accelerator.render()), Some(accelerator));
                }
            }
        }
    }
}

#[test]
fn parse_gives_the_fields() {
    assert_eq!(
        Accelerator::parse("CmdOrCtrl+F"),
        Some(Accelerator { cmd_or_ctrl: true, alt: false, shift: false, key: 'F' })
    );
    assert_eq!(
        Accelerator::parse("CmdOrCtrl+Shift+M"),
        Some(Accelerator { cmd_or_ctrl: true, alt: false, shift: true, key: 'M' })
    );
    assert_eq!(
        Accelerator::parse("Shift+5"),
        Some(Accelerator { cmd_or_ctrl: false, alt: false, shift: true, key: '5' })
    );
    assert_eq!(Accelerator::parse("Q"), Some(Accelerator::plain('Q')));
}

#[test]
fn parse_refuses_other_texts() {
    for text in [
        "",
        "+",
        "q",
        "CmdOrCtrl",
        "CmdOrCtrl+",
        "CmdOrCtrl+q",
        "cmdorctrl+Q",
        "Shift+Alt+Q",
        "Alt+CmdOrCtrl+Q",
        "CmdOrCtrl+CmdOrCtrl+Q",
        "CmdOrCtrl+Shift+",
        "CmdOrCtrl + Q",
        "CmdOrCtrl+QQ",
        "CmdOrCtrl+\u{e9}",
        "F1",
    ] {
        assert_eq!(Accelerator::parse(text), None);
    }
}

#[test]
fn well_formed_keys_are_capitals_and_digits() {
    for key in ['A', 'M', 'Z', '0', '5', '9'] {
        assert!(Accelerator::plain(key).is_well_formed());
    }
    for key in ['a', 'z', '+', ' ', '@', '[', '/', ':', '\u{e9}'] {
        assert!(!Accelerator::plain(key).is_well_formed());
    }
}
