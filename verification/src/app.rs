//! Application state: window configuration, the draw list, and the three
//! per-frame managers (input, time, game view).
//!
//! The platform loop that owns the real window feeds events in through
//! [`App::handle_event`] and reads the configuration back out to apply it;
//! nothing here touches a platform API.

use crate::entities::game_view::GameView;
use crate::fixed::SCALE;
use crate::input::{device_event, mouse_button_code, Input, InputModel, MouseButton};
use crate::rendering::shape::Shape;
use crate::time::Time;
use crate::types::vector2::Vector2;
use vstd::prelude::*;

verus! {

/// Kinds of attention a window can request from the user.
#[derive(Clone, Copy, Debug, PartialEq, Eq, Structural)]
pub enum AttentionType {
    Critical,
    Informational,
}

/// Styles the mouse cursor can take.
#[derive(Clone, Copy, Debug, PartialEq, Eq, Structural)]
pub enum MouseIcon {
    Default,
    Crosshair,
    Hand,
    Arrow,
    Move,
    Text,
    Wait,
    Help,
    Progress,
    NotAllowed,
    ContextMenu,
    Cell,
    VerticalText,
    Alias,
    Copy,
    NoDrop,
    Grab,
    Grabbing,
    AllScroll,
    ZoomIn,
    ZoomOut,
    EastResize,
    NorthResize,
    NorthEastResize,
    NorthWestResize,
    SouthResize,
    SouthEastResize,
    SouthWestResize,
    WestResize,
    EastWestResize,
    NorthSouthResize,
    NorthEastSouthWestResize,
    NorthWestSouthEastResize,
    ColumnResize,
    RowResize,
}

/// One discrete platform event, already reduced to plain values.
#[derive(Clone, Copy, Debug, PartialEq, Eq, Structural)]
pub enum AppEvent {
    /// A key went down or up.
    Keyboard { scancode: u32, pressed: bool },
    /// A mouse button went down or up.
    MouseButton { button: MouseButton, pressed: bool },
    /// The cursor moved to a window-client position (fixed-point pixels).
    CursorMoved { position: Vector2 },
    /// The cursor entered the window.
    CursorEntered,
    /// The cursor left the window.
    CursorLeft,
    /// The window gained or lost focus.
    Focused { is_focused: bool },
    /// The user asked to close the window.
    CloseRequested,
}

/// Main game application state; everything lives in here.
pub struct App {
    pub width: u32,
    pub height: u32,
    pub title: String,
    pub is_resizable: bool,
    pub is_visible: bool,
    pub is_minimized: bool,
    pub is_maximized: bool,
    pub is_decorated: bool,
    pub is_always_on_top: bool,
    pub is_mouse_confined: bool,
    pub is_mouse_visible: bool,
    pub mouse_icon: MouseIcon,
    pub is_focused: bool,
    /// Whether user code asked the loop driver to stop after this frame.
    pub quit_requested: bool,
    /// The per-frame draw list entities submit their screen-space shapes to.
    pub shapes: Vec<Shape>,
    pub input: Input,
    pub time: Time,
    pub game_view: GameView,
}

impl App {
    /// Whether the window configuration of two states agrees.
    pub open spec fn same_screen_config(self, o: App) -> bool {
        &&& self.width == o.width
        &&& self.height == o.height
        &&& self.title@ == o.title@
        &&& self.is_resizable == o.is_resizable
        &&& self.is_visible == o.is_visible
        &&& self.is_minimized == o.is_minimized
        &&& self.is_maximized == o.is_maximized
        &&& self.is_decorated == o.is_decorated
        &&& self.is_always_on_top == o.is_always_on_top
        &&& self.is_mouse_confined == o.is_mouse_confined
        &&& self.is_mouse_visible == o.is_mouse_visible
        &&& self.mouse_icon == o.mouse_icon
    }

    /// Whether the per-frame managers and the draw list of two states agree.
    pub open spec fn same_frame_state(self, o: App) -> bool {
        &&& self.shapes@ == o.shapes@
        &&& self.time@ == o.time@
        &&& self.game_view == o.game_view
    }

    /// An application with the default window configuration (800 by 600,
    /// decorated, visible, focused) and all managers in their initial
    /// state.
    pub fn new() -> (app: Self)
        ensures
            app.width == 800,
            app.height == 600,
            app.title@ == "Sidekick App"@,
            !app.is_resizable,
            app.is_visible,
            !app.is_minimized,
            !app.is_maximized,
            app.is_decorated,
            !app.is_always_on_top,
            !app.is_mouse_confined,
            app.is_mouse_visible,
            app.mouse_icon == MouseIcon::Default,
            app.is_focused,
            !app.quit_requested,
            app.shapes@ == Seq::<Shape>::empty(),
            app.input@ == crate::input::input_init(),
            app.input.wf(),
            app.time@.target_frame_rate == 60,
            app.time@.time_scale == SCALE,
            app.time.inv(),
            app.game_view.game_object == crate::entities::game_object::GameObject::default_spec(),
            !app.game_view.is_shaking,
            app.game_view.inv(),
    {
        App {
            width: 800,
            height: 600,
            title: "Sidekick App".to_owned(),
            is_resizable: false,
            is_visible: true,
            is_minimized: false,
            is_maximized: false,
            is_decorated: true,
            is_always_on_top: false,
            is_mouse_confined: false,
            is_mouse_visible: true,
            mouse_icon: MouseIcon::Default,
            is_focused: true,
            quit_requested: false,
            shapes: Vec::new(),
            input: Input::new(),
            time: Time::new(),
            game_view: GameView::new(),
        }
    }

    /// Set the screen width in pixels.
    pub fn set_width(&mut self, width: u32)
        ensures
            *final(self) == (App { width, ..*old(self) }),
    {
        self.width = width;
    }

    /// Current screen width in pixels.
    pub fn width(&self) -> (r: u32)
        ensures
            r == self.width,
    {
        self.width
    }

    /// Set the screen height in pixels.
    pub fn set_height(&mut self, height: u32)
        ensures
            *final(self) == (App { height, ..*old(self) }),
    {
        self.height = height;
    }

    /// Current screen height in pixels.
    pub fn height(&self) -> (r: u32)
        ensures
            r == self.height,
    {
        self.height
    }

    /// Set screen width and height in pixels.
    pub fn set_size(&mut self, width: u32, height: u32)
        ensures
            *final(self) == (App { width, height, ..*old(self) }),
    {
        self.width = width;
        self.height = height;
    }

    /// Current screen size as a fixed-point vector.
    pub fn size(&self) -> (r: Vector2)
        ensures
            r.x == self.width * SCALE,
            r.y == self.height * SCALE,
    {
        Vector2 { x: (self.width as i64) * SCALE, y: (self.height as i64) * SCALE }
    }

    /// Set the window title.
    pub fn set_title(&mut self, title: &str)
        ensures
            final(self).title@ == title@,
            final(self).same_frame_state(*old(self)),
            final(self).width == old(self).width,
            final(self).height == old(self).height,
            final(self).is_resizable == old(self).is_resizable,
            final(self).is_visible == old(self).is_visible,
            final(self).is_minimized == old(self).is_minimized,
            final(self).is_maximized == old(self).is_maximized,
            final(self).is_decorated == old(self).is_decorated,
            final(self).is_always_on_top == old(self).is_always_on_top,
            final(self).is_mouse_confined == old(self).is_mouse_confined,
            final(self).is_mouse_visible == old(self).is_mouse_visible,
            final(self).mouse_icon == old(self).mouse_icon,
            final(self).is_focused == old(self).is_focused,
            final(self).quit_requested == old(self).quit_requested,
            final(self).input@ == old(self).input@,
            final(self).input.wf() == old(self).input.wf(),
    {
        self.title = title.to_owned();
    }

    /// Current window title.
    pub fn title(&self) -> (r: &str)
        ensures
            r@ == self.title@,
    {
        self.title.as_str()
    }

    /// Set whether the window can be resized.
    pub fn set_resizable(&mut self, is_resizable: bool)
        ensures
            *final(self) == (App { is_resizable, ..*old(self) }),
    {
        self.is_resizable = is_resizable;
    }

    /// Whether the window can be resized.
    pub fn is_resizable(&self) -> (r: bool)
        ensures
            r == self.is_resizable,
    {
        self.is_resizable
    }

    /// Set whether the window is visible.
    pub fn set_visible(&mut self, is_visible: bool)
        ensures
            *final(self) == (App { is_visible, ..*old(self) }),
    {
        self.is_visible = is_visible;
    }

    /// Whether the window is visible.
    pub fn is_visible(&self) -> (r: bool)
        ensures
            r == self.is_visible,
    {
        self.is_visible
    }

    /// Set whether the window is minimized.
    pub fn set_minimized(&mut self, is_minimized: bool)
        ensures
            *final(self) == (App { is_minimized, ..*old(self) }),
    {
        self.is_minimized = is_minimized;
    }

    /// Whether the window is minimized.
    pub fn is_minimized(&self) -> (r: bool)
        ensures
            r == self.is_minimized,
    {
        self.is_minimized
    }

    /// Set whether the window is maximized.
    pub fn set_maximized(&mut self, is_maximized: bool)
        ensures
            *final(self) == (App { is_maximized, ..*old(self) }),
    {
        self.is_maximized = is_maximized;
    }

    /// Whether the window is maximized.
    pub fn is_maximized(&self) -> (r: bool)
        ensures
            r == self.is_maximized,
    {
        self.is_maximized
    }

    /// Set whether the window has decorations.
    pub fn set_decorated(&mut self, is_decorated: bool)
        ensures
            *final(self) == (App { is_decorated, ..*old(self) }),
    {
        self.is_decorated = is_decorated;
    }

    /// Whether the window has decorations.
    pub fn is_decorated(&self) -> (r: bool)
        ensures
            r == self.is_decorated,
    {
        self.is_decorated
    }

    /// Set whether the window stays on top of others.
    pub fn set_always_on_top(&mut self, is_always_on_top: bool)
        ensures
            *final(self) == (App { is_always_on_top, ..*old(self) }),
    {
        self.is_always_on_top = is_always_on_top;
    }

    /// Whether the window stays on top of others.
    pub fn is_always_on_top(&self) -> (r: bool)
        ensures
            r == self.is_always_on_top,
    {
        self.is_always_on_top
    }

    /// Record that the cursor should be confined to the window. The flag
    /// reflects intent; the platform layer applies it and may fail
    /// harmlessly where the platform cannot confine the cursor.
    pub fn set_mouse_confined(&mut self, is_mouse_confined: bool)
        ensures
            *final(self) == (App { is_mouse_confined, ..*old(self) }),
    {
        self.is_mouse_confined = is_mouse_confined;
    }

    /// Whether the cursor is meant to be confined to the window.
    pub fn is_mouse_confined(&self) -> (r: bool)
        ensures
            r == self.is_mouse_confined,
    {
        self.is_mouse_confined
    }

    /// Set whether the cursor is visible over the window.
    pub fn set_mouse_visible(&mut self, is_mouse_visible: bool)
        ensures
            *final(self) == (App { is_mouse_visible, ..*old(self) }),
    {
        self.is_mouse_visible = is_mouse_visible;
    }

    /// Whether the cursor is visible over the window.
    pub fn is_mouse_visible(&self) -> (r: bool)
        ensures
            r == self.is_mouse_visible,
    {
        self.is_mouse_visible
    }

    /// Choose the cursor style shown over the window.
    pub fn set_mouse_icon(&mut self, mouse_icon: MouseIcon)
        ensures
            *final(self) == (App { mouse_icon, ..*old(self) }),
    {
        self.mouse_icon = mouse_icon;
    }

    /// Current cursor style.
    pub fn mouse_icon(self) -> (r: MouseIcon)
        ensures
            r == self.mouse_icon,
    {
        self.mouse_icon
    }

    /// Whether the window has input focus.
    pub fn is_focused(&self) -> (r: bool)
        ensures
            r == self.is_focused,
    {
        self.is_focused
    }

    /// Ask the loop driver to stop after the current frame.
    pub fn quit(&mut self)
        ensures
            *final(self) == (App { quit_requested: true, ..*old(self) }),
    {
        self.quit_requested = true;
    }

    /// Whether user code asked the loop driver to stop.
    pub fn is_quit_requested(&self) -> (r: bool)
        ensures
            r == self.quit_requested,
    {
        self.quit_requested
    }

    /// Feed one platform event into the application: input events update
    /// the input manager, focus updates the focus flag, and a close
    /// request asks the loop to quit. Nothing else changes.
    pub fn handle_event(&mut self, event: AppEvent)
        requires
            old(self).input.wf(),
        ensures
            final(self).input.wf(),
            final(self).same_screen_config(*old(self)),
            final(self).same_frame_state(*old(self)),
            match event {
                AppEvent::Keyboard { scancode, pressed } => {
                    &&& final(self).input@ == (InputModel {
                        keyboard: device_event(old(self).input@.keyboard, scancode, pressed),
                        ..old(self).input@
                    })
                    &&& final(self).is_focused == old(self).is_focused
                    &&& final(self).quit_requested == old(self).quit_requested
                },
                AppEvent::MouseButton { button, pressed } => {
                    &&& final(self).input@ == (InputModel {
                        mouse: device_event(
                            old(self).input@.mouse,
                            mouse_button_code(button),
                            pressed,
                        ),
                        ..old(self).input@
                    })
                    &&& final(self).is_focused == old(self).is_focused
                    &&& final(self).quit_requested == old(self).quit_requested
                },
                AppEvent::CursorMoved { position } => {
                    &&& final(self).input@ == (InputModel {
                        mouse_position: position,
                        ..old(self).input@
                    })
                    &&& final(self).is_focused == old(self).is_focused
                    &&& final(self).quit_requested == old(self).quit_requested
                },
                AppEvent::CursorEntered => {
                    &&& final(self).input@ == (InputModel {
                        is_mouse_entered: true,
                        ..old(self).input@
                    })
                    &&& final(self).is_focused == old(self).is_focused
                    &&& final(self).quit_requested == old(self).quit_requested
                },
                AppEvent::CursorLeft => {
                    &&& final(self).input@ == (InputModel {
                        is_mouse_entered: false,
                        ..old(self).input@
                    })
                    &&& final(self).is_focused == old(self).is_focused
                    &&& final(self).quit_requested == old(self).quit_requested
                },
                AppEvent::Focused { is_focused } => {
                    &&& final(self).input@ == old(self).input@
                    &&& final(self).is_focused == is_focused
                    &&& final(self).quit_requested == old(self).quit_requested
                },
                AppEvent::CloseRequested => {
                    &&& final(self).input@ == old(self).input@
                    &&& final(self).is_focused == old(self).is_focused
                    &&& final(self).quit_requested
                },
            },
    {
        match event {
            AppEvent::Keyboard { scancode, pressed } => {
                self.input.update_keyboard_input(scancode, pressed);
            },
            AppEvent::MouseButton { button, pressed } => {
                self.input.update_mouse_button_input(pressed, button);
            },
            AppEvent::CursorMoved { position } => {
                self.input.update_mouse_position_input(position);
            },
            AppEvent::CursorEntered => {
                self.input.update_mouse_entered_input(true);
            },
            AppEvent::CursorLeft => {
                self.input.update_mouse_entered_input(false);
            },
            AppEvent::Focused { is_focused } => {
                self.is_focused = is_focused;
            },
            AppEvent::CloseRequested => {
                self.quit();
            },
        }
    }
}

} // verus!
