use alpha_visual::selector::{
    choose_visual, PictFormat, PictType, ScreenInfo, VisualChoice, VisualDescriptor,
};

fn screen() -> ScreenInfo {
    ScreenInfo { root_depth: 24, root_visual: 0x21, screen_index: 0 }
}

fn format(
    id: u32,
    type_: PictType,
    depth: u8,
    masks: (u32, u32, u32, u32),
    shifts: (u8, u8, u8, u8),
) -> PictFormat {
    PictFormat {
        id,
        type_,
        depth,
        red_mask: masks.0,
        green_mask: masks.1,
        blue_mask: masks.2,
        alpha_mask: masks.3,
        red_shift: shifts.0,
        green_shift: shifts.1,
        blue_shift: shifts.2,
        alpha_shift: shifts.3,
    }
}

fn argb32(id: u32) -> PictFormat {
    format(id, PictType::Direct, 32, (0xff, 0xff, 0xff, 0xff), (16, 8, 0, 24))
}

#[test]
fn matching_format_and_visual_selected() {
    let formats = vec![argb32(1)];
    let visuals = vec![VisualDescriptor { visual_id: 0x5b, format_id: 1 }];
    let choice = choose_visual(&screen(), true, &formats, &visuals);
    assert_eq!(choice, VisualChoice { depth: 32, visual_id: 0x5b });
}

#[test]
fn partial_alpha_mask_falls_back() {
    let formats = vec![format(
        2,
        PictType::Direct,
        32,
        (0xff, 0xff, 0xff, 0x00),
        (16, 8, 0, 24),
    )];
    let visuals = vec![VisualDescriptor { visual_id: 0x5b, format_id: 2 }];
    let choice = choose_visual(&screen(), true, &formats, &visuals);
    assert_eq!(choice, VisualChoice { depth: 24, visual_id: 0x21 });
}

#[test]
fn extension_absent_falls_back() {
    let formats = vec![argb32(1)];
    let visuals = vec![VisualDescriptor { visual_id: 0x5b, format_id: 1 }];
    let choice = choose_visual(&screen(), false, &formats, &visuals);
    assert_eq!(choice, VisualChoice { depth: 24, visual_id: 0x21 });
}

#[test]
fn empty_format_list_falls_back() {
    let choice = choose_visual(&screen(), true, &Vec::new(), &Vec::new());
    assert_eq!(choice, VisualChoice { depth: 24, visual_id: 0x21 });
}

#[test]
fn wrong_shifts_fall_back() {
    let formats = vec![format(
        3,
        PictType::Direct,
        32,
        (0xff, 0xff, 0xff, 0xff),
        (0, 8, 16, 24),
    )];
    let visuals = vec![VisualDescriptor { visual_id: 0x5b, format_id: 3 }];
    let choice = choose_visual(&screen(), true, &formats, &visuals);
    assert_eq!(choice, VisualChoice { depth: 24, visual_id: 0x21 });
}

#[test]
fn indexed_or_shallow_formats_fall_back() {
    let formats = vec![
        format(4, PictType::Indexed, 32, (0xff, 0xff, 0xff, 0xff), (16, 8, 0, 24)),
        format(5, PictType::Direct, 24, (0xff, 0xff, 0xff, 0xff), (16, 8, 0, 24)),
    ];
    let visuals = vec![
        VisualDescriptor { visual_id: 0x5b, format_id: 4 },
        VisualDescriptor { visual_id: 0x5c, format_id: 5 },
    ];
    let choice = choose_visual(&screen(), true, &formats, &visuals);
    assert_eq!(choice, VisualChoice { depth: 24, visual_id: 0x21 });
}

#[test]
fn matching_format_without_visual_falls_back() {
    let formats = vec![argb32(1)];
    let visuals = vec![VisualDescriptor { visual_id: 0x5b, format_id: 9 }];
    let choice = choose_visual(&screen(), true, &formats, &visuals);
    assert_eq!(choice, VisualChoice { depth: 24, visual_id: 0x21 });
}

#[test]
fn non_matching_entries_do_not_disturb_selection() {
    let formats = vec![
        format(6, PictType::Indexed, 8, (0, 0, 0, 0), (0, 0, 0, 0)),
        format(7, PictType::Direct, 24, (0xff, 0xff, 0xff, 0), (16, 8, 0, 0)),
        argb32(8),
        format(9, PictType::Direct, 32, (0xff, 0xff, 0xff, 0xff), (0, 8, 16, 24)),
    ];
    let visuals = vec![
        VisualDescriptor { visual_id: 0x60, format_id: 7 },
        VisualDescriptor { visual_id: 0x61, format_id: 8 },
        VisualDescriptor { visual_id: 0x62, format_id: 8 },
    ];
    let choice = choose_visual(&screen(), true, &formats, &visuals);
    assert_eq!(choice, VisualChoice { depth: 32, visual_id: 0x61 });
}

#[test]
fn first_matching_format_wins() {
    let formats = vec![argb32(10), argb32(11)];
    let visuals = vec![
        VisualDescriptor { visual_id: 0x70, format_id: 11 },
        VisualDescriptor { visual_id: 0x71, format_id: 10 },
    ];
    let choice = choose_visual(&screen(), true, &formats, &visuals);
    assert_eq!(choice, VisualChoice { depth: 32, visual_id: 0x71 });
}
