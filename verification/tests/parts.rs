use sudoku_screens::geometry::{Point, Rect};
use sudoku_screens::leader_board::LeaderBoard;
use sudoku_screens::main_menu::MainMenu;
use sudoku_screens::mesh::{backdrop, Color, Mesh, Vertex, SURFACE_HEIGHT, SURFACE_WIDTH};
use sudoku_screens::panel::Panel;
use sudoku_screens::playing::Playing;
use sudoku_screens::screen_id::ScreenId;
use sudoku_screens::select_difficulty::SelectDifficulty;
use sudoku_screens::session::{Difficulty, SharedContext, DEFAULT_DIFFICULTY};
use sudoku_screens::widget::{Action, Button, DrawCommand, Intent, Label, PointerButton, REGION_TEXT_SIZE};

fn region(x: i32, y: i32, w: u32, h: u32, caption: &'static str, action: Action) -> Button {
    Button { bounds: Rect { x, y, w, h }, caption, action }
}

fn empty_mesh() -> Mesh {
    Mesh { vertices: Vec::new(), indices: Vec::new() }
}

#[test]
fn rect_contains_its_edges() {
    let rect = Rect { x: 320, y: 200, w: 80, h: 40 };
    for at in [
        Point { x: 320, y: 200 },
        Point { x: 400, y: 200 },
        Point { x: 320, y: 240 },
        Point { x: 400, y: 240 },
        Point { x: 360, y: 220 },
    ] {
        assert!(rect.contains(at));
    }
}

#[test]
fn rect_excludes_what_lies_past_its_edges() {
    let rect = Rect { x: 320, y: 200, w: 80, h: 40 };
    for at in [
        Point { x: 319, y: 220 },
        Point { x: 401, y: 220 },
        Point { x: 360, y: 199 },
        Point { x: 360, y: 241 },
    ] {
        assert!(!rect.contains(at));
    }
}

#[test]
fn rect_of_no_extent_contains_its_corner_only() {
    let rect = Rect { x: -5, y: 7, w: 0, h: 0 };
    assert!(rect.contains(Point { x: -5, y: 7 }));
    assert!(!rect.contains(Point { x: -4, y: 7 }));
    assert!(!rect.contains(Point { x: -5, y: 8 }));
}

#[test]
fn rect_at_the_ends_of_the_coordinates() {
    let rect = Rect { x: i32::MAX, y: i32::MIN, w: u32::MAX, h: u32::MAX };
    assert!(rect.contains(Point { x: i32::MAX, y: i32::MIN }));
    assert!(rect.contains(Point { x: i32::MAX, y: i32::MAX }));
    assert!(!rect.contains(Point { x: i32::MAX - 1, y: 0 }));
    let whole = Rect { x: i32::MIN, y: i32::MIN, w: u32::MAX, h: u32::MAX };
    assert!(whole.contains(Point { x: i32::MAX, y: i32::MAX }));
    assert!(whole.contains(Point { x: i32::MIN, y: i32::MIN }));
    assert!(whole.overlaps(rect));
}

#[test]
fn rects_that_touch_overlap() {
    let a = Rect { x: 0, y: 0, w: 10, h: 10 };
    assert!(a.overlaps(Rect { x: 10, y: 10, w: 5, h: 5 }));
    assert!(a.overlaps(Rect { x: 3, y: 3, w: 1, h: 1 }));
    assert!(!a.overlaps(Rect { x: 11, y: 0, w: 5, h: 5 }));
    assert!(!a.overlaps(Rect { x: 0, y: 11, w: 5, h: 5 }));
    assert!(!Rect { x: 11, y: 0, w: 5, h: 5 }.overlaps(a));
}

#[test]
fn session_starts_unset_and_is_forced_to_defaults() {
    let mut shared = SharedContext::new();
    assert_eq!(shared.difficulty, None);
    assert!(!shared.is_complete());
    assert_eq!(shared.difficulty_or_default(), Difficulty::Easy);
    shared.force_defaults();
    assert_eq!(shared.difficulty, Some(Difficulty::Easy));
    assert!(shared.is_complete());
    assert_eq!(shared, SharedContext::new_forced());
    assert_eq!(DEFAULT_DIFFICULTY, Difficulty::Easy);
}

#[test]
fn forcing_defaults_keeps_what_was_chosen() {
    let mut shared = SharedContext { difficulty: Some(Difficulty::Hard) };
    shared.force_defaults();
    assert_eq!(shared.difficulty, Some(Difficulty::Hard));
    assert_eq!(shared.difficulty_or_default(), Difficulty::Hard);
}

#[test]
fn difficulty_captions() {
    assert_eq!(Difficulty::Easy.caption(), "EASY");
    assert_eq!(Difficulty::Medium.caption(), "MEDIUM");
    assert_eq!(Difficulty::Hard.caption(), "HARD");
}

#[test]
fn customary_successors() {
    let all = [ScreenId::MainMenu, ScreenId::SelectDifficulty, ScreenId::Playing, ScreenId::LeaderBoard];
    let table = [
        [false, true, false, true],
        [true, false, true, false],
        [true, false, false, true],
        [true, false, false, false],
    ];
    for (from, row) in all.into_iter().zip(table) {
        for (to, customary) in all.into_iter().zip(row) {
            assert_eq!(from.leads_to(to), customary);
        }
    }
}

#[test]
fn only_the_puzzle_reads_the_session() {
    assert!(ScreenId::Playing.needs_session());
    assert!(!ScreenId::MainMenu.needs_session());
    assert!(!ScreenId::SelectDifficulty.needs_session());
    assert!(!ScreenId::LeaderBoard.needs_session());
}

#[test]
fn intents_lead_where_they_say() {
    assert_eq!(Intent::Open(ScreenId::LeaderBoard).target(), ScreenId::LeaderBoard);
    assert_eq!(Intent::Choose(Difficulty::Hard).target(), ScreenId::Playing);
    let mut shared = SharedContext::new();
    Intent::Open(ScreenId::Playing).apply(&mut shared);
    assert_eq!(shared.difficulty, None);
    Intent::Choose(Difficulty::Medium).apply(&mut shared);
    assert_eq!(shared.difficulty, Some(Difficulty::Medium));
    Intent::Choose(Difficulty::Hard).apply(&mut shared);
    assert_eq!(shared.difficulty, Some(Difficulty::Hard));
}

#[test]
fn region_is_activated_by_the_primary_button_within_its_bounds() {
    let play = region(320, 200, 80, 40, "PLAY", Action::Record(Intent::Open(ScreenId::SelectDifficulty)));
    assert!(play.activated_by(PointerButton::Primary, Point { x: 400, y: 240 }));
    assert!(!play.activated_by(PointerButton::Primary, Point { x: 401, y: 240 }));
    assert!(!play.activated_by(PointerButton::Secondary, Point { x: 360, y: 220 }));
    assert!(!play.activated_by(PointerButton::Middle, Point { x: 360, y: 220 }));
    assert!(!play.activated_by(PointerButton::Other, Point { x: 360, y: 220 }));
}

#[test]
fn every_region_that_contains_the_position_acts() {
    // Three regions over one another: each acts, and of those that
    // record, the last in the row decides.
    let buttons = vec![
        region(0, 0, 100, 100, "A", Action::Record(Intent::Open(ScreenId::LeaderBoard))),
        region(50, 50, 100, 100, "B", Action::Exit),
        region(50, 50, 10, 10, "C", Action::Record(Intent::Choose(Difficulty::Hard))),
        region(500, 500, 10, 10, "D", Action::Record(Intent::Open(ScreenId::MainMenu))),
    ];
    let mut panel = Panel::new(empty_mesh(), buttons, Vec::new());
    assert!(panel.handle_pointer_event(PointerButton::Primary, Point { x: 55, y: 55 }));
    assert_eq!(panel.pending(), Some(Intent::Choose(Difficulty::Hard)));

    // Where only the first two are hit, the first records and the second asks to exit.
    assert!(panel.handle_pointer_event(PointerButton::Primary, Point { x: 80, y: 80 }));
    assert_eq!(panel.pending(), Some(Intent::Open(ScreenId::LeaderBoard)));

    // Where only the exit region is hit, what is pending stays.
    assert!(panel.handle_pointer_event(PointerButton::Primary, Point { x: 120, y: 120 }));
    assert_eq!(panel.pending(), Some(Intent::Open(ScreenId::LeaderBoard)));

    // A miss changes nothing.
    assert!(!panel.handle_pointer_event(PointerButton::Primary, Point { x: 300, y: 300 }));
    assert_eq!(panel.pending(), Some(Intent::Open(ScreenId::LeaderBoard)));
}

#[test]
fn update_hands_out_what_is_pending_once() {
    let buttons = vec![region(0, 0, 10, 10, "GO", Action::Record(Intent::Open(ScreenId::LeaderBoard)))];
    let mut panel = Panel::new(empty_mesh(), buttons, Vec::new());
    let mut shared = SharedContext::new();
    assert_eq!(panel.update(&mut shared), None);
    panel.handle_pointer_event(PointerButton::Primary, Point { x: 5, y: 5 });
    assert_eq!(panel.update(&mut shared), Some(ScreenId::LeaderBoard));
    assert_eq!(panel.pending(), None);
    assert_eq!(panel.update(&mut shared), None);
    assert_eq!(shared.difficulty, None);
}

#[test]
fn update_writes_a_choice_to_the_session() {
    let buttons = vec![region(0, 0, 10, 10, "M", Action::Record(Intent::Choose(Difficulty::Medium)))];
    let mut panel = Panel::new(empty_mesh(), buttons, Vec::new());
    let mut shared = SharedContext { difficulty: Some(Difficulty::Hard) };
    panel.handle_pointer_event(PointerButton::Primary, Point { x: 0, y: 10 });
    assert_eq!(shared.difficulty, Some(Difficulty::Hard));
    assert_eq!(panel.update(&mut shared), Some(ScreenId::Playing));
    assert_eq!(shared.difficulty, Some(Difficulty::Medium));
}

#[test]
fn panel_without_regions_takes_any_event() {
    let mut panel = Panel::new(empty_mesh(), Vec::new(), Vec::new());
    assert!(!panel.handle_pointer_event(PointerButton::Primary, Point { x: 0, y: 0 }));
    assert_eq!(panel.pending(), None);
    assert_eq!(panel.render(), vec![DrawCommand::Backdrop]);
}

#[test]
fn panel_is_drawn_backdrop_first_then_regions_then_captions() {
    let buttons = vec![
        region(1, 2, 3, 4, "ONE", Action::Exit),
        region(5, 6, 7, 8, "TWO", Action::Record(Intent::Open(ScreenId::MainMenu))),
    ];
    let labels = vec![
        Label { text: "first", size: 12, at: Point { x: 9, y: 10 } },
        Label { text: "second", size: 14, at: Point { x: 11, y: 12 } },
    ];
    let panel = Panel::new(backdrop(), buttons, labels);
    assert_eq!(
        panel.render(),
        vec![
            DrawCommand::Backdrop,
            DrawCommand::Region { bounds: Rect { x: 1, y: 2, w: 3, h: 4 }, caption: "ONE" },
            DrawCommand::Region { bounds: Rect { x: 5, y: 6, w: 7, h: 8 }, caption: "TWO" },
            DrawCommand::Text { text: "first", size: 12, at: Point { x: 9, y: 10 } },
            DrawCommand::Text { text: "second", size: 14, at: Point { x: 11, y: 12 } },
        ]
    );
}

#[test]
fn main_menu_layout() {
    let menu = MainMenu::new();
    assert_eq!(
        *menu.panel().buttons(),
        vec![
            region(320, 320, 80, 40, "EXIT", Action::Exit),
            region(280, 260, 160, 40, "LEADERBOARD", Action::Record(Intent::Open(ScreenId::LeaderBoard))),
            region(320, 200, 80, 40, "PLAY", Action::Record(Intent::Open(ScreenId::SelectDifficulty))),
        ]
    );
    assert_eq!(
        *menu.panel().labels(),
        vec![
            Label { text: "SUDOKU", size: 80, at: Point { x: 360, y: 100 } },
            Label { text: "Made by alimulap", size: 15, at: Point { x: 640, y: 450 } },
        ]
    );
    assert_eq!(menu.panel().pending(), None);
    assert_eq!(*menu.panel().backdrop(), backdrop());
    assert_eq!(menu.render().len(), 6);
    assert_eq!(REGION_TEXT_SIZE, 20);
}

#[test]
fn main_menu_hands_out_its_request_once() {
    let mut menu = MainMenu::new();
    let mut shared = SharedContext::new();
    assert_eq!(menu.update(&mut shared), None);
    assert!(!menu.handle_pointer_event(PointerButton::Primary, Point { x: 320, y: 200 }));
    assert_eq!(menu.update(&mut shared), Some(ScreenId::SelectDifficulty));
    assert_eq!(menu.update(&mut shared), None);
    assert!(menu.handle_pointer_event(PointerButton::Primary, Point { x: 320, y: 360 }));
    assert_eq!(menu.update(&mut shared), None);
    assert_eq!(shared.difficulty, None);
}

#[test]
fn screens_but_the_choice_of_difficulty_leave_the_session_alone() {
    let held = SharedContext { difficulty: Some(Difficulty::Medium) };

    let mut shared = held;
    let mut menu = MainMenu::new();
    menu.handle_pointer_event(PointerButton::Primary, Point { x: 360, y: 220 });
    assert_eq!(menu.update(&mut shared), Some(ScreenId::SelectDifficulty));
    assert_eq!(shared, held);

    let mut board = LeaderBoard::new();
    board.handle_pointer_event(PointerButton::Primary, Point { x: 360, y: 400 });
    assert_eq!(board.update(&mut shared), Some(ScreenId::MainMenu));
    assert_eq!(shared, held);

    let mut playing = Playing::new(&SharedContext::new());
    playing.handle_pointer_event(PointerButton::Primary, Point { x: 660, y: 440 });
    assert_eq!(playing.update(&mut shared), Some(ScreenId::LeaderBoard));
    assert_eq!(shared, held);
    assert_eq!(playing.difficulty(), Difficulty::Easy);
}

#[test]
fn select_difficulty_layout() {
    let screen = SelectDifficulty::new();
    assert_eq!(
        *screen.panel().buttons(),
        vec![
            region(320, 180, 80, 40, "EASY", Action::Record(Intent::Choose(Difficulty::Easy))),
            region(300, 240, 120, 40, "MEDIUM", Action::Record(Intent::Choose(Difficulty::Medium))),
            region(320, 300, 80, 40, "HARD", Action::Record(Intent::Choose(Difficulty::Hard))),
            region(320, 380, 80, 40, "BACK", Action::Record(Intent::Open(ScreenId::MainMenu))),
        ]
    );
    assert_eq!(
        *screen.panel().labels(),
        vec![Label { text: "SELECT DIFFICULTY", size: 40, at: Point { x: 360, y: 100 } }]
    );
}

#[test]
fn select_difficulty_writes_the_choice_on_update() {
    let mut screen = SelectDifficulty::new();
    let mut shared = SharedContext::new();
    screen.handle_pointer_event(PointerButton::Primary, Point { x: 300, y: 280 });
    assert_eq!(shared.difficulty, None);
    assert_eq!(screen.update(&mut shared), Some(ScreenId::Playing));
    assert_eq!(shared.difficulty, Some(Difficulty::Medium));
    assert_eq!(screen.update(&mut shared), None);
}

#[test]
fn playing_is_built_for_the_difficulty_of_the_session() {
    let unset = Playing::new(&SharedContext::new());
    assert_eq!(
        *unset.panel().labels(),
        vec![Label { text: "EASY", size: 20, at: Point { x: 360, y: 30 } }]
    );
    assert_eq!(unset.difficulty(), Difficulty::Easy);
    let hard = Playing::new(&SharedContext { difficulty: Some(Difficulty::Hard) });
    assert_eq!(hard.difficulty(), Difficulty::Hard);
    assert_eq!(hard.panel().labels()[0].text, "HARD");
    assert_eq!(
        *hard.panel().buttons(),
        vec![
            region(20, 420, 80, 40, "MENU", Action::Record(Intent::Open(ScreenId::MainMenu))),
            region(620, 420, 80, 40, "DONE", Action::Record(Intent::Open(ScreenId::LeaderBoard))),
        ]
    );
}

#[test]
fn leader_board_layout() {
    let mut screen = LeaderBoard::new();
    assert_eq!(
        *screen.panel().buttons(),
        vec![region(320, 380, 80, 40, "BACK", Action::Record(Intent::Open(ScreenId::MainMenu)))]
    );
    assert_eq!(
        *screen.panel().labels(),
        vec![Label { text: "LEADERBOARD", size: 40, at: Point { x: 360, y: 100 } }]
    );
    let mut shared = SharedContext::new();
    assert!(!screen.handle_pointer_event(PointerButton::Primary, Point { x: 400, y: 420 }));
    assert_eq!(screen.update(&mut shared), Some(ScreenId::MainMenu));
}

#[test]
fn regions_of_every_screen_are_apart() {
    let shared = SharedContext::new();
    let rows = [
        MainMenu::new().panel().buttons().clone(),
        SelectDifficulty::new().panel().buttons().clone(),
        Playing::new(&shared).panel().buttons().clone(),
        LeaderBoard::new().panel().buttons().clone(),
    ];
    let surface = Rect { x: 0, y: 0, w: 720, h: 480 };
    for row in rows {
        for (i, one) in row.iter().enumerate() {
            assert!(surface.contains(Point { x: one.bounds.x, y: one.bounds.y }));
            for other in row.iter().skip(i + 1) {
                assert!(!one.bounds.overlaps(other.bounds));
            }
        }
    }
}

#[test]
fn backdrop_geometry() {
    let mesh = backdrop();
    assert_eq!(SURFACE_WIDTH, 720);
    assert_eq!(SURFACE_HEIGHT, 480);
    assert_eq!(
        mesh.vertices,
        vec![
            Vertex { at: Point { x: 0, y: 0 }, color: Color { r: 1, g: 0, b: 1, a: 1000 } },
            Vertex { at: Point { x: 720, y: 0 }, color: Color { r: 0, g: 0, b: 10, a: 1000 } },
            Vertex { at: Point { x: 360, y: 240 }, color: Color { r: 15, g: 0, b: 20, a: 1000 } },
            Vertex { at: Point { x: 720, y: 480 }, color: Color { r: 1, g: 0, b: 1, a: 1000 } },
            Vertex { at: Point { x: 0, y: 480 }, color: Color { r: 0, g: 0, b: 10, a: 1000 } },
        ]
    );
    assert_eq!(mesh.indices, vec![0, 1, 2, 2, 1, 3, 3, 2, 4, 4, 2, 0]);
    assert!(mesh.is_triangle_list());
    assert_eq!(Color::opaque(3, 4, 5), Color { r: 3, g: 4, b: 5, a: 1000 });
}

#[test]
fn meshes_that_are_no_triangle_lists() {
    let corner = Vertex { at: Point { x: 0, y: 0 }, color: Color::opaque(0, 0, 0) };
    assert!(empty_mesh().is_triangle_list());
    let short = Mesh { vertices: vec![corner, corner, corner], indices: vec![0, 1] };
    assert!(!short.is_triangle_list());
    let stray = Mesh { vertices: vec![corner, corner, corner], indices: vec![0, 1, 3] };
    assert!(!stray.is_triangle_list());
    let sound = Mesh { vertices: vec![corner, corner, corner], indices: vec![0, 1, 2, 2, 1, 0] };
    assert!(sound.is_triangle_list());
    let bare = Mesh { vertices: Vec::new(), indices: vec![0, 0, 0] };
    assert!(!bare.is_triangle_list());
}
