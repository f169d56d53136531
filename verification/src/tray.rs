//! The icon in the notification area: what its events ask for, what its menu says, and what it
//! looks like.

use crate::text::same_text;
use vstd::prelude::*;

verus! {

/// The identifier of the menu entry that opens the window.
pub const OPEN_MENU_ID: &'static str = "aec-bridge.tray.open";

/// The identifier of the menu entry that quits.
pub const QUIT_MENU_ID: &'static str = "aec-bridge.tray.quit";

/// What the notification area asks for.
#[derive(Clone, Copy, Debug, PartialEq, Eq, Structural)]
pub enum TrayAction {
    Open,
    Quit,
}

/// A choice in a menu.
#[derive(Debug)]
pub struct MenuEvent {
    pub id: String,
}

/// A button of the mouse.
#[derive(Clone, Copy, Debug, PartialEq, Eq, Structural)]
pub enum MouseButton {
    Left,
    Right,
    Middle,
}

/// Whether a button was let go or pressed.
#[derive(Clone, Copy, Debug, PartialEq, Eq, Structural)]
pub enum MouseButtonState {
    Up,
    Down,
}

/// Something that happened on an icon in the notification area.
#[derive(Debug)]
pub enum TrayIconEvent {
    Click { id: String, button: MouseButton, button_state: MouseButtonState },
    DoubleClick { id: String, button: MouseButton },
    /// The pointer came, moved or went.
    Pointer { id: String },
}

impl TrayIconEvent {
    /// The icon that an event belongs to.
    pub open spec fn icon(self) -> Seq<char> {
        match self {
            TrayIconEvent::Click { id, .. } => id@,
            TrayIconEvent::DoubleClick { id, .. } => id@,
            TrayIconEvent::Pointer { id } => id@,
        }
    }

    /// Whether an event asks for the window: the left button was let go, or clicked twice.
    pub open spec fn asks_for_window(self) -> bool {
        match self {
            TrayIconEvent::Click { button, button_state, .. } => button == MouseButton::Left
                && button_state == MouseButtonState::Up,
            TrayIconEvent::DoubleClick { button, .. } => button == MouseButton::Left,
            TrayIconEvent::Pointer { .. } => false,
        }
    }
}

/// What a choice in a menu asks for.
pub open spec fn menu_request(id: Seq<char>, open_id: Seq<char>, quit_id: Seq<char>) -> Option<
    TrayAction,
> {
    if id == open_id {
        Some(TrayAction::Open)
    } else if id == quit_id {
        Some(TrayAction::Quit)
    } else {
        None
    }
}

/// What a choice in a menu asks for; other menus' entries ask for nothing.
pub fn menu_action(event: &MenuEvent, open_id: &str, quit_id: &str) -> (action: Option<TrayAction>)
    ensures
        action == menu_request(event.id@, open_id@, quit_id@),
{
    if same_text(event.id.as_str(), open_id) {
        Some(TrayAction::Open)
    } else if same_text(event.id.as_str(), quit_id) {
        Some(TrayAction::Quit)
    } else {
        None
    }
}

/// What an event on an icon asks for.
pub open spec fn icon_request(event: TrayIconEvent, tray_id: Seq<char>) -> Option<TrayAction> {
    if event.icon() == tray_id && event.asks_for_window() {
        Some(TrayAction::Open)
    } else {
        None
    }
}

/// What an event on an icon asks for; other icons' events ask for nothing.
pub fn tray_action(event: &TrayIconEvent, tray_id: &str) -> (action: Option<TrayAction>)
    ensures
        action == icon_request(*event, tray_id@),
{
    let (id, asks) = match event {
        TrayIconEvent::Click { id, button, button_state } => (
            id,
            *button == MouseButton::Left && *button_state == MouseButtonState::Up,
        ),
        TrayIconEvent::DoubleClick { id, button } => (id, *button == MouseButton::Left),
        TrayIconEvent::Pointer { id } => (id, false),
    };
    if asks && same_text(id.as_str(), tray_id) {
        Some(TrayAction::Open)
    } else {
        None
    }
}

/// The identifiers of an icon and its menu, and the status that the menu shows.
#[derive(Debug)]
pub struct TrayController {
    pub tray_id: String,
    pub open_id: String,
    pub quit_id: String,
    pub last_status: String,
}

/// The menu entry that shows a status.
pub open spec fn status_entry(status: Seq<char>) -> Seq<char> {
    "Status: "@ + status
}

/// The menu entry that shows the status.
pub fn status_text(status: &str) -> (text: String)
    ensures
        text@ == status_entry(status@),
{
    let mut text = "Status: ".to_owned();
    text.append(status);
    text
}

/// What choices in menus ask for, in their order.
pub open spec fn menu_requests(
    events: Seq<MenuEvent>,
    open_id: Seq<char>,
    quit_id: Seq<char>,
) -> Seq<TrayAction>
    decreases events.len(),
{
    if events.len() == 0 {
        Seq::empty()
    } else {
        let earlier = menu_requests(events.drop_last(), open_id, quit_id);
        match menu_request(events.last().id@, open_id, quit_id) {
            Some(action) => earlier.push(action),
            None => earlier,
        }
    }
}

/// What events on icons ask for, in their order.
pub open spec fn icon_requests(events: Seq<TrayIconEvent>, tray_id: Seq<char>) -> Seq<TrayAction>
    decreases events.len(),
{
    if events.len() == 0 {
        Seq::empty()
    } else {
        let earlier = icon_requests(events.drop_last(), tray_id);
        match icon_request(events.last(), tray_id) {
            Some(action) => earlier.push(action),
            None => earlier,
        }
    }
}

impl TrayController {
    /// The controller of the icon `tray_id`, whose menu shows `status`.
    pub fn create(tray_id: &str, status: &str) -> (controller: TrayController)
        ensures
            controller.tray_id@ == tray_id@,
            controller.open_id@ == OPEN_MENU_ID@,
            controller.quit_id@ == QUIT_MENU_ID@,
            controller.last_status@ == status@,
    {
        TrayController {
            tray_id: tray_id.to_owned(),
            open_id: OPEN_MENU_ID.to_owned(),
            quit_id: QUIT_MENU_ID.to_owned(),
            last_status: status.to_owned(),
        }
    }

    /// Takes a status over. A status other than the last gives the new text of the menu entry.
    pub fn set_status(&mut self, status: &str) -> (text: Option<String>)
        ensures
            final(self).tray_id == old(self).tray_id,
            final(self).open_id == old(self).open_id,
            final(self).quit_id == old(self).quit_id,
            final(self).last_status@ == status@,
            match text {
                None => old(self).last_status@ == status@,
                Some(text) => old(self).last_status@ != status@ && text@ == status_entry(status@),
            },
    {
        if same_text(self.last_status.as_str(), status) {
            return None;
        }
        self.last_status = status.to_owned();
        Some(status_text(status))
    }

    /// What the events that came ask for: those of the menu first, then those of the icon.
    pub fn poll_actions(&self, menu_events: &Vec<MenuEvent>, tray_events: &Vec<TrayIconEvent>)
        -> (actions: Vec<TrayAction>)
        ensures
            actions@ == menu_requests(menu_events@, self.open_id@, self.quit_id@) + icon_requests(
                tray_events@,
                self.tray_id@,
            ),
    {
        let mut actions: Vec<TrayAction> = Vec::new();
        let mut index: usize = 0;
        assert(menu_events@.take(0) =~= Seq::empty());
        while index < menu_events.len()
            invariant
                index <= menu_events@.len(),
                actions@ == menu_requests(
                    menu_events@.take(index as int),
                    self.open_id@,
                    self.quit_id@,
                ),
            decreases menu_events@.len() - index,
        {
            assert(menu_events@.take(index + 1).drop_last() =~= menu_events@.take(index as int));
            if let Some(action) = menu_action(
                &menu_events[index],
                self.open_id.as_str(),
                self.quit_id.as_str(),
            ) {
                actions.push(action);
            }
            index = index + 1;
        }
        assert(menu_events@.take(menu_events@.len() as int) =~= menu_events@);
        let ghost chosen = actions@;
        assert(tray_events@.take(0) =~= Seq::empty());
        assert(chosen + Seq::<TrayAction>::empty() =~= chosen);
        index = 0;
        while index < tray_events.len()
            invariant
                index <= tray_events@.len(),
                actions@ == chosen + icon_requests(
                    tray_events@.take(index as int),
                    self.tray_id@,
                ),
            decreases tray_events@.len() - index,
        {
            let ghost before = icon_requests(tray_events@.take(index as int), self.tray_id@);
            assert(tray_events@.take(index + 1).drop_last() =~= tray_events@.take(index as int));
            if let Some(action) = tray_action(&tray_events[index], self.tray_id.as_str()) {
                actions.push(action);
                assert(actions@ =~= chosen + before.push(action));
            }
            index = index + 1;
        }
        assert(tray_events@.take(tray_events@.len() as int) =~= tray_events@);
        actions
    }
}

/// The side of the icon in pixels.
pub const ICON_SIZE: u32 = 32;

/// The square of a pixel's distance from the middle of the icon.
pub open spec fn distance_squared(x: int, y: int) -> int {
    (x - 15) * (x - 15) + (y - 15) * (y - 15)
}

/// Whether a pixel is near enough to the middle for an opacity: whether 255 times its distance is
/// at most 3888.75 (the radius of 15.25 pixels, 255 steps each) less the opacity. Both sides are
/// taken fourfold and squared.
pub open spec fn opacity_reached(squared: int, opacity: int) -> bool {
    1_040_400 * squared <= (15_555 - 4 * opacity) * (15_555 - 4 * opacity)
}

/// The highest opacity that a pixel is near enough for, looked for from `opacity` down.
pub open spec fn opacity_from(squared: int, opacity: nat) -> nat
    decreases opacity,
{
    if opacity == 0 || opacity_reached(squared, opacity as int) {
        opacity
    } else {
        opacity_from(squared, (opacity - 1) as nat)
    }
}

/// The opacity of the disc behind the bars: full in the inside, none outside, and fading over one
/// pixel at the rim.
pub open spec fn disc_opacity(squared: int) -> nat {
    opacity_from(squared, 255)
}

/// Whether a pixel lies on a bar that is two pixels wide and `height` pixels high, and ends on the
/// column `column`.
pub open spec fn on_bar(x: int, y: int, column: int, height: int) -> bool {
    &&& x == column - 1 || x == column
    &&& -height <= 2 * (y - 15) <= height
}

/// Whether a pixel lies on one of the five bars of the wave.
pub open spec fn on_wave(x: int, y: int) -> bool {
    ||| on_bar(x, y, 8, 7)
    ||| on_bar(x, y, 12, 13)
    ||| on_bar(x, y, 16, 19)
    ||| on_bar(x, y, 20, 13)
    ||| on_bar(x, y, 24, 7)
}

/// The four bytes of a pixel: red, green, blue, opacity.
pub open spec fn icon_pixel(x: int, y: int) -> Seq<u8> {
    let opacity = disc_opacity(distance_squared(x, y));
    if on_wave(x, y) && opacity > 0 {
        seq![246u8, 250u8, 255u8, 255u8]
    } else {
        seq![40u8, 143u8, 235u8, opacity as u8]
    }
}

/// The bytes of the icon, row by row.
pub open spec fn icon_bytes() -> Seq<u8> {
    Seq::new(4096, |i: int| icon_pixel(i / 4 % 32, i / 4 / 32)[i % 4])
}

fn bar_holds(x: i64, y: i64, column: i64, height: i64) -> (holds: bool)
    requires
        0 <= x < 32,
        0 <= y < 32,
        0 <= column < 32,
        0 <= height < 32,
    ensures
        holds == on_bar(x as int, y as int, column as int, height as int),
{
    (x == column - 1 || x == column) && -height <= 2 * (y - 15) && 2 * (y - 15) <= height
}

fn opacity_at(squared: i64) -> (opacity: u8)
    requires
        0 <= squared <= 1000,
    ensures
        opacity == disc_opacity(squared as int),
{
    let mut opacity: i64 = 255;
    assert((15_555 - 4 * opacity) * (15_555 - 4 * opacity) <= 15_555 * 15_555) by (nonlinear_arith)
        requires
            opacity == 255,
    ;
    while opacity > 0 && 1_040_400 * squared > (15_555 - 4 * opacity) * (15_555 - 4 * opacity)
        invariant
            0 <= squared <= 1000,
            0 <= opacity <= 255,
            disc_opacity(squared as int) == opacity_from(squared as int, opacity as nat),
            (15_555 - 4 * opacity) * (15_555 - 4 * opacity) <= 15_555 * 15_555,
        decreases opacity,
    {
        opacity = opacity - 1;
        assert((15_555 - 4 * opacity) * (15_555 - 4 * opacity) <= 15_555 * 15_555)
            by (nonlinear_arith)
            requires
                0 <= opacity <= 255,
        ;
    }
    opacity as u8
}

/// Draws the icon: its pixels, its width and its height.
pub fn icon_rgba() -> (icon: (Vec<u8>, u32, u32))
    ensures
        icon.0@ == icon_bytes(),
        icon.1 == 32,
        icon.2 == 32,
{
    let mut pixels: Vec<u8> = Vec::new();
    let mut index: i64 = 0;
    assert(pixels@ =~= icon_bytes().take(0));
    while index < 1024
        invariant
            0 <= index <= 1024,
            pixels@ == icon_bytes().take(4 * index),
        decreases 1024 - index,
    {
        let x: i64 = index % 32;
        let y: i64 = index / 32;
        assert(0 <= (x - 15) * (x - 15) <= 256) by (nonlinear_arith)
            requires
                0 <= x < 32,
        ;
        assert(0 <= (y - 15) * (y - 15) <= 256) by (nonlinear_arith)
            requires
                0 <= y < 32,
        ;
        let opacity: u8 = opacity_at((x - 15) * (x - 15) + (y - 15) * (y - 15));
        let wave = bar_holds(x, y, 8, 7) || bar_holds(x, y, 12, 13) || bar_holds(x, y, 16, 19)
            || bar_holds(x, y, 20, 13) || bar_holds(x, y, 24, 7);
        if wave && opacity > 0 {
            pixels.push(246);
            pixels.push(250);
            pixels.push(255);
            pixels.push(255);
        } else {
            pixels.push(40);
            pixels.push(143);
            pixels.push(235);
            pixels.push(opacity);
        }
        proof {
            let drawn = icon_pixel(x as int, y as int);
            assert(pixels@ =~= icon_bytes().take(4 * index) + drawn);
            assert(icon_bytes().take(4 * (index + 1)) =~= icon_bytes().take(4 * index) + drawn);
        }
        index = index + 1;
    }
    assert(icon_bytes().take(4096) =~= icon_bytes());
    (pixels, ICON_SIZE, ICON_SIZE)
}

proof fn opacity_stays_unreached(squared: int, opacity: nat)
    requires
        squared >= 233,
        opacity <= 255,
    ensures
        opacity_from(squared, opacity) == 0,
    decreases opacity,
{
    if opacity > 0 {
        assert((15_555 - 4 * opacity) * (15_555 - 4 * opacity) <= 15_551 * 15_551)
            by (nonlinear_arith)
            requires
                1 <= opacity <= 255,
        ;
        opacity_stays_unreached(squared, (opacity - 1) as nat);
    }
}

/// Outside the radius of the disc the icon is clear, inside the fading rim it is opaque.
pub proof fn icon_is_a_disc(x: int, y: int)
    ensures
        distance_squared(x, y) >= 233 ==> icon_pixel(x, y)[3] == 0,
        distance_squared(x, y) <= 203 ==> icon_pixel(x, y)[3] == 255,
{
    if distance_squared(x, y) >= 233 {
        opacity_stays_unreached(distance_squared(x, y), 255);
    }
    if distance_squared(x, y) <= 203 {
        assert((15_555 - 4 * 255) * (15_555 - 4 * 255) == 211_266_225) by (nonlinear_arith);
        assert(opacity_reached(distance_squared(x, y), 255));
    }
}

/// A choice in the menu opens the window or quits by the entry that was chosen, and an entry of
/// another menu does nothing.
pub proof fn a_menu_entry_does_what_it_says(id: Seq<char>, open_id: Seq<char>, quit_id: Seq<char>)
    requires
        open_id != quit_id,
    ensures
        menu_request(id, open_id, quit_id) == Some(TrayAction::Open) <==> id == open_id,
        menu_request(id, open_id, quit_id) == Some(TrayAction::Quit) <==> id == quit_id,
        menu_request(id, open_id, quit_id) is None <==> id != open_id && id != quit_id,
{
}

/// The two entries of the menu are not the same.
pub proof fn opening_is_not_quitting()
    ensures
        OPEN_MENU_ID@ != QUIT_MENU_ID@,
{
    reveal_strlit("aec-bridge.tray.open");
    reveal_strlit("aec-bridge.tray.quit");
    assert(OPEN_MENU_ID@[16] == 'o');
    assert(QUIT_MENU_ID@[16] == 'q');
}

/// The icon asks for the window when the left button is let go on it, or clicked twice, and for
/// nothing else; it never quits, and another icon asks for nothing.
pub proof fn only_left_clicks_on_the_icon_count(event: TrayIconEvent, tray_id: Seq<char>)
    ensures
        icon_request(event, tray_id) == Some(TrayAction::Open) <==> match event {
            TrayIconEvent::Click { id, button, button_state } => id@ == tray_id && button
                == MouseButton::Left && button_state == MouseButtonState::Up,
            TrayIconEvent::DoubleClick { id, button } => id@ == tray_id && button
                == MouseButton::Left,
            TrayIconEvent::Pointer { .. } => false,
        },
        icon_request(event, tray_id) != Some(TrayAction::Quit),
{
}

proof fn menu_requests_hold(
    events: Seq<MenuEvent>,
    open_id: Seq<char>,
    quit_id: Seq<char>,
    action: TrayAction,
)
    ensures
        menu_requests(events, open_id, quit_id).contains(action) <==> exists|i: int|
            0 <= i < events.len() && menu_request(
                (#[trigger] events[i]).id@,
                open_id,
                quit_id,
            ) == Some(action),
    decreases events.len(),
{
    let all = menu_requests(events, open_id, quit_id);
    if events.len() > 0 {
        let rest = events.drop_last();
        let earlier = menu_requests(rest, open_id, quit_id);
        menu_requests_hold(rest, open_id, quit_id, action);
        if all.contains(action) {
            let k = choose|k: int| 0 <= k < all.len() && all[k] == action;
            if k < earlier.len() {
                assert(earlier[k] == action);
                let i = choose|i: int|
                    0 <= i < rest.len() && menu_request(
                        (#[trigger] rest[i]).id@,
                        open_id,
                        quit_id,
                    ) == Some(action);
                assert(events[i] == rest[i]);
            } else {
                assert(events[events.len() - 1] == events.last());
            }
        }
        if exists|i: int|
            0 <= i < events.len() && menu_request(
                (#[trigger] events[i]).id@,
                open_id,
                quit_id,
            ) == Some(action) {
            let i = choose|i: int|
                0 <= i < events.len() && menu_request(
                    (#[trigger] events[i]).id@,
                    open_id,
                    quit_id,
                ) == Some(action);
            if i < rest.len() {
                assert(rest[i] == events[i]);
                let k = choose|k: int| 0 <= k < earlier.len() && earlier[k] == action;
                assert(all[k] == action);
            } else {
                assert(all.last() == action);
            }
        }
    }
}

proof fn icon_requests_hold(events: Seq<TrayIconEvent>, tray_id: Seq<char>, action: TrayAction)
    ensures
        icon_requests(events, tray_id).contains(action) <==> exists|i: int|
            0 <= i < events.len() && icon_request(#[trigger] events[i], tray_id) == Some(action),
    decreases events.len(),
{
    let all = icon_requests(events, tray_id);
    if events.len() > 0 {
        let rest = events.drop_last();
        let earlier = icon_requests(rest, tray_id);
        icon_requests_hold(rest, tray_id, action);
        if all.contains(action) {
            let k = choose|k: int| 0 <= k < all.len() && all[k] == action;
            if k < earlier.len() {
                assert(earlier[k] == action);
                let i = choose|i: int|
                    0 <= i < rest.len() && icon_request(#[trigger] rest[i], tray_id) == Some(action);
                assert(events[i] == rest[i]);
            } else {
                assert(events[events.len() - 1] == events.last());
            }
        }
        if exists|i: int|
            0 <= i < events.len() && icon_request(#[trigger] events[i], tray_id) == Some(action) {
            let i = choose|i: int|
                0 <= i < events.len() && icon_request(#[trigger] events[i], tray_id) == Some(action);
            if i < rest.len() {
                assert(rest[i] == events[i]);
                let k = choose|k: int| 0 <= k < earlier.len() && earlier[k] == action;
                assert(all[k] == action);
            } else {
                assert(all.last() == action);
            }
        }
    }
}

/// The program is asked to quit exactly where the entry for that was chosen, and the window is asked
/// for exactly where its entry was chosen or the icon was clicked for it. There are never more
/// requests than events.
pub proof fn every_request_is_heard(
    menu_events: Seq<MenuEvent>,
    tray_events: Seq<TrayIconEvent>,
    open_id: Seq<char>,
    quit_id: Seq<char>,
    tray_id: Seq<char>,
)
    requires
        open_id != quit_id,
    ensures
        ({
            let actions = menu_requests(menu_events, open_id, quit_id) + icon_requests(
                tray_events,
                tray_id,
            );
            &&& actions.contains(TrayAction::Quit) <==> exists|i: int|
                0 <= i < menu_events.len() && (#[trigger] menu_events[i]).id@ == quit_id
            &&& actions.contains(TrayAction::Open) <==> (exists|i: int|
                0 <= i < menu_events.len() && (#[trigger] menu_events[i]).id@ == open_id) || (
            exists|i: int|
                0 <= i < tray_events.len() && icon_request(#[trigger] tray_events[i], tray_id)
                    is Some)
            &&& actions.len() <= menu_events.len() + tray_events.len()
        }),
{
    let chosen = menu_requests(menu_events, open_id, quit_id);
    let clicked = icon_requests(tray_events, tray_id);
    let actions = chosen + clicked;
    menu_requests_hold(menu_events, open_id, quit_id, TrayAction::Quit);
    menu_requests_hold(menu_events, open_id, quit_id, TrayAction::Open);
    icon_requests_hold(tray_events, tray_id, TrayAction::Quit);
    icon_requests_hold(tray_events, tray_id, TrayAction::Open);
    requests_are_no_more_than_events(menu_events, tray_events, open_id, quit_id, tray_id);
    assert forall|action: TrayAction|
        actions.contains(action) <==> chosen.contains(action) || clicked.contains(action) by {
        if chosen.contains(action) {
            let k = choose|k: int| 0 <= k < chosen.len() && chosen[k] == action;
            assert(actions[k] == action);
        }
        if clicked.contains(action) {
            let k = choose|k: int| 0 <= k < clicked.len() && clicked[k] == action;
            assert(actions[chosen.len() + k] == action);
        }
    }
}

proof fn requests_are_no_more_than_events(
    menu_events: Seq<MenuEvent>,
    tray_events: Seq<TrayIconEvent>,
    open_id: Seq<char>,
    quit_id: Seq<char>,
    tray_id: Seq<char>,
)
    ensures
        menu_requests(menu_events, open_id, quit_id).len() <= menu_events.len(),
        icon_requests(tray_events, tray_id).len() <= tray_events.len(),
    decreases menu_events.len() + tray_events.len(),
{
    if menu_events.len() > 0 {
        requests_are_no_more_than_events(
            menu_events.drop_last(),
            tray_events,
            open_id,
            quit_id,
            tray_id,
        );
    } else if tray_events.len() > 0 {
        requests_are_no_more_than_events(
            menu_events,
            tray_events.drop_last(),
            open_id,
            quit_id,
            tray_id,
        );
    }
}

/// The wave of the icon is the same on both sides, and above and below its middle.
pub proof fn the_wave_is_even(x: int, y: int)
    ensures
        on_wave(x, y) == on_wave(31 - x, y),
        on_wave(x, y) == on_wave(x, 30 - y),
        on_wave(x, 15) <==> 7 <= x <= 24 && (x % 4 == 3 || x % 4 == 0),
{
}

} // verus!
