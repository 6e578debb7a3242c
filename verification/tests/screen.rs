use vape::progress::Rgb;
use vape::screen::{
    exit_button, loaded, loading, minimize_button, not_found, window_signals, CornerRounding,
    Panel, Vape,
};
use vape::status::Status;

#[test]
fn controller_starts_on_the_loading_screen() {
    assert_eq!(Vape::new().status, Status::Loading);
}

#[test]
fn logo_click_while_loading_shows_the_loaded_panel() {
    let mut v = Vape::new();
    let p = v.loader(true);
    assert_eq!(v.status, Status::Loaded);
    assert!(matches!(p, Panel::Loaded { .. }));
}

#[test]
fn logo_click_while_loaded_shows_the_not_found_panel() {
    let mut v = Vape::new();
    v.loader(true);
    let p = v.loader(true);
    assert_eq!(v.status, Status::NotFound);
    assert!(matches!(p, Panel::NotFound { .. }));
}

#[test]
fn a_frame_without_a_logo_click_keeps_the_status() {
    let mut v = Vape::new();
    let p = v.loader(false);
    assert_eq!(v.status, Status::Loading);
    assert!(matches!(p, Panel::Loading { .. }));
}

#[test]
fn three_logo_clicks_return_to_the_starting_screen() {
    let mut v = Vape::new();
    let start = v.status;
    v.loader(true);
    v.loader(true);
    v.loader(true);
    assert_eq!(v.status, start);
}

#[test]
fn the_panel_always_matches_the_status_of_its_frame() {
    let mut v = Vape::new();
    for clicked in [true, false, true, true, false, true, true] {
        let before = v.status;
        let p = v.loader(clicked);
        let shown = match p {
            Panel::NotFound { .. } => Status::NotFound,
            Panel::Loading { .. } => Status::Loading,
            Panel::Loaded { .. } => Status::Loaded,
        };
        assert_eq!(shown, v.status);
        if clicked {
            assert_ne!(v.status, before);
        } else {
            assert_eq!(v.status, before);
        }
    }
}

#[test]
fn not_found_panel_holds_the_two_info_lines() {
    match not_found() {
        Panel::NotFound { line1, line2, text_size } => {
            assert_eq!(line1, "target application not found");
            assert_eq!(line2, "open the target application to continue");
            assert_eq!(text_size, 14);
        }
        _ => panic!("wrong panel"),
    }
}

#[test]
fn loading_panel_holds_the_two_accent_bars() {
    match loading() {
        Panel::Loading { primary, secondary, spacing } => {
            assert_eq!(primary.fraction_milli, 450);
            assert_eq!(secondary.fraction_milli, 750);
            for bar in [primary, secondary] {
                assert_eq!(bar.desired_width, 400);
                assert_eq!(bar.desired_height, 8);
                assert_eq!(bar.fill, Rgb { r: 0, g: 90, b: 72 });
            }
            assert_eq!(spacing, 16);
        }
        _ => panic!("wrong panel"),
    }
}

#[test]
fn loaded_panel_holds_the_info_lines_and_close_button() {
    match loaded() {
        Panel::Loaded { line1, line2, text_size, close_label, close_text_size, close_fill, spacing } => {
            assert_eq!(line1, "Vape has finished loading");
            assert_eq!(line2, "Press RIGHT SHIFT while in game to open the GUI");
            assert_eq!(text_size, 14);
            assert_eq!(close_label, "Close Window");
            assert_eq!(close_text_size, 20);
            assert_eq!(close_fill, Rgb { r: 0, g: 90, b: 72 });
            assert_eq!(spacing, 16);
        }
        _ => panic!("wrong panel"),
    }
}

#[test]
fn chrome_buttons_round_their_outer_corners() {
    let exit = exit_button();
    assert_eq!(exit.label, "\u{274c}");
    assert_eq!(exit.fill, Rgb { r: 30, g: 30, b: 30 });
    assert_eq!(exit.rounding, CornerRounding { nw: 0, ne: 10, sw: 0, se: 10 });

    let minimize = minimize_button();
    assert_eq!(minimize.label, "\u{2796}");
    assert_eq!(minimize.fill, Rgb { r: 30, g: 30, b: 30 });
    assert_eq!(minimize.rounding, CornerRounding { nw: 10, ne: 0, sw: 10, se: 0 });
}

#[test]
fn one_chrome_close_click_issues_one_terminate_request() {
    for status in [Status::NotFound, Status::Loading, Status::Loaded] {
        let s = window_signals(status, true, false, false);
        assert_eq!(s.terminate_requests, 1);
        assert_eq!(s.minimize_requests, 0);
    }
}

#[test]
fn one_panel_close_click_counts_only_on_the_loaded_screen() {
    let s = window_signals(Status::Loaded, false, false, true);
    assert_eq!(s.terminate_requests, 1);
    assert_eq!(window_signals(Status::Loading, false, false, true).terminate_requests, 0);
    assert_eq!(window_signals(Status::NotFound, false, false, true).terminate_requests, 0);
}

#[test]
fn a_frame_without_close_clicks_issues_no_terminate_request() {
    let s = window_signals(Status::Loading, false, false, false);
    assert_eq!(s.terminate_requests, 0);
    assert_eq!(s.minimize_requests, 0);
}

#[test]
fn a_minimize_click_issues_exactly_one_minimize_request() {
    let s = window_signals(Status::Loading, false, true, false);
    assert_eq!(s.minimize_requests, 1);
    assert_eq!(s.terminate_requests, 0);
}
