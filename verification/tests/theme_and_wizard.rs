use nodecode_terminal_kit::components::component::UpdatableComponent;
use nodecode_terminal_kit::components::dialog_shell::{DialogBounds, Padding};
use nodecode_terminal_kit::components::lines_viewport::{
    line_offset, lines_window, Alignment, LinesRun, LinesWindow,
};
use nodecode_terminal_kit::components::list::{
    plan_list, plan_list_with_chrome, ListChrome, ListPlan, Thumb,
};
use nodecode_terminal_kit::components::list_items::{
    dropdown_item_base_style, make_list_item, make_list_item_with_element,
    picker_item_base_style, plain_item, plain_item_style, toggle_item, toggle_item_styles,
    value_item, value_item_styles, ToggleTone,
};
use nodecode_terminal_kit::primitives::geom::Rect;
use nodecode_terminal_kit::runtime::config::{ExitKeys, ProgramConfig};
use nodecode_terminal_kit::runtime::error::ProgramError;
use nodecode_terminal_kit::runtime::keys::{KeyCode, KeyEvent, KeyModifiers};
use nodecode_terminal_kit::theme::colors::{ColorFamilies, ColorScale};
use nodecode_terminal_kit::theme::{
    color_to_rgb, is_fill, list_item_style, BorderKind, CellStyle, Color, Theme, ThemeElement,
    ThemeFacade, ThemeOverride, ThemeState,
};
use nodecode_terminal_kit::wizard::framework::{
    StepAction, WizardFlow, WizardItem, WizardMode, WizardStep,
};
use nodecode_terminal_kit::wizard::layout::{
    input_step_layout, padded_list_layout, wizard_body_rows, wizard_header_rows,
};
use nodecode_terminal_kit::wizard::model::{GenericWizardModel, ViewMode};
use nodecode_terminal_kit::wizard::steps::{
    status_line, summary_content_height, summary_key_action, text_step_key, text_step_submit,
    TextStepKey, INPUT_DEFAULT_HEIGHT, SUMMARY_DEFAULT_HEIGHT,
};
use nodecode_terminal_kit::wizard::view::{
    active_tab, confirm_delete_message, default_nav_text, dialog_opts_hooks, empty_list_message,
    format_title_with_indicator, list_help_text, nav_text, step_indicator, wizard_title,
};

fn key(code: KeyCode) -> KeyEvent {
    KeyEvent::new(code, KeyModifiers::none())
}

fn rgb(r: u8, g: u8, b: u8) -> Color {
    Color::Rgb { r, g, b }
}

#[test]
fn the_default_theme() {
    let theme = Theme::default();
    assert_eq!(theme.name, "nodecode-default");
    assert_eq!(theme.border_type, BorderKind::Plain);
    assert_eq!(theme.background, rgb(10, 12, 14));
    assert_eq!(theme.foreground, rgb(230, 232, 235));
    assert_eq!(theme.primary, rgb(232, 236, 244));
    assert_eq!(theme.success, rgb(94, 201, 123));
    assert_eq!(theme.error, rgb(236, 99, 110));
    assert_eq!(theme.background_surface, rgb(19, 23, 28));
    assert_eq!(theme.background_thumb, rgb(72, 84, 99));
    assert_eq!(theme.color(ThemeElement::Primary), theme.primary);
    assert_eq!(theme.color(ThemeElement::BackgroundHover), theme.background_hover);
    assert_eq!(Color::default(), rgb(255, 255, 255));
    assert_eq!(color_to_rgb(rgb(1, 2, 3)), Some((1, 2, 3)));
    assert_eq!(color_to_rgb(Color::Indexed(7)), None);
}

#[test]
fn elements_are_drawn_as_foreground_or_fill() {
    let theme = Theme::default();
    assert_eq!(
        theme.style(ThemeElement::Base),
        CellStyle::plain().fg(theme.foreground).bg(theme.background)
    );
    assert_eq!(theme.style(ThemeElement::Primary), CellStyle::plain().fg(theme.primary));
    assert_eq!(
        theme.style(ThemeElement::BackgroundSurface),
        CellStyle::plain().bg(theme.background_surface)
    );
    assert_eq!(theme.style(ThemeElement::Cursor), CellStyle::plain().bg(theme.cursor));
    assert!(is_fill(ThemeElement::BackgroundTrack) && is_fill(ThemeElement::Cursor));
    assert!(!is_fill(ThemeElement::Base) && !is_fill(ThemeElement::Border));
    assert_eq!(theme.base_style(), theme.style(ThemeElement::Base));
    assert_eq!(theme.primary_style(), theme.style(ThemeElement::Primary));
    assert_eq!(theme.secondary_style(), theme.style(ThemeElement::Secondary));
    assert_eq!(theme.border_focused_style(), theme.style(ThemeElement::BorderFocused).bold());
    let plain = CellStyle::plain();
    assert_eq!((plain.fg, plain.bg, plain.bold, plain.dim, plain.italic), (None, None, false, false, false));
    let all = plain.bold().dim().italic();
    assert!(all.bold && all.dim && all.italic);
}

#[test]
fn states_change_the_style() {
    let theme = Theme::default();
    let base = theme.style(ThemeElement::Secondary);
    assert_eq!(theme.style_state(ThemeElement::Secondary, ThemeState::Normal), base);
    assert_eq!(
        theme.style_state(ThemeElement::Secondary, ThemeState::Hovered),
        base.bg(theme.background_hover)
    );
    assert_eq!(
        theme.style_state(ThemeElement::Secondary, ThemeState::Active),
        base.bg(theme.background_active)
    );
    assert_eq!(
        theme.style_state(ThemeElement::Secondary, ThemeState::Disabled),
        base.fg(theme.quaternary).dim()
    );
    let selected = CellStyle::plain().fg(theme.selection).bold();
    assert_eq!(list_item_style(&theme, ThemeElement::Base, true, true), selected);
    assert_eq!(list_item_style(&theme, ThemeElement::Error, true, false), selected);
    assert_eq!(
        list_item_style(&theme, ThemeElement::Base, false, true),
        CellStyle::plain().fg(theme.foreground).bg(theme.background_hover)
    );
    assert_eq!(
        list_item_style(&theme, ThemeElement::Base, false, false),
        CellStyle::plain().fg(theme.foreground).bg(theme.background_surface)
    );
    assert_eq!(
        list_item_style(&theme, ThemeElement::Error, false, true),
        theme.style(ThemeElement::Error).bg(theme.background_hover)
    );
    assert_eq!(list_item_style(&theme, ThemeElement::Error, false, false), theme.style(ThemeElement::Error));
}

#[test]
fn colours_are_overridden_by_name() {
    let theme = Theme::default();
    let changed = theme.clone().with("primary", rgb(1, 1, 1));
    assert_eq!(changed.primary, rgb(1, 1, 1));
    assert_eq!(changed.secondary, theme.secondary);
    let same = theme.clone().with("no such colour", rgb(1, 1, 1));
    assert_eq!(same.primary, theme.primary);
    assert_eq!(same.background, theme.background);
    let over = ThemeOverride {
        name: Some("mine".to_string()),
        colors: vec![
            ("primary".to_string(), rgb(1, 1, 1)),
            ("primary".to_string(), rgb(2, 2, 2)),
            ("error".to_string(), rgb(3, 3, 3)),
            ("background-surface".to_string(), Color::Indexed(8)),
            ("background_surface".to_string(), Color::Indexed(9)),
        ],
    };
    let made = theme.clone().apply_overrides(&over);
    assert_eq!(made.name, "mine");
    assert_eq!(made.primary, rgb(2, 2, 2));
    assert_eq!(made.error, rgb(3, 3, 3));
    assert_eq!(made.background_surface, Color::Indexed(8));
    assert_eq!(made.success, theme.success);
    let unnamed = theme.clone().apply_overrides(&ThemeOverride { name: None, colors: Vec::new() });
    assert_eq!(unnamed.name, "nodecode-default");
    assert_eq!(unnamed.primary, theme.primary);
}

#[test]
fn palette_agents_and_facade() {
    let theme = Theme::default();
    let palette = theme.palette();
    assert_eq!(palette.background_surface, theme.background_surface);
    assert_eq!(palette.primary, theme.primary);
    assert_eq!(palette.background_elevated, theme.background_elevated);
    assert_eq!(palette.foreground, theme.foreground);
    assert_eq!(palette.border_focused, theme.border_focused);
    assert_eq!(palette.secondary, theme.secondary);
    assert_eq!(palette.success, theme.success);
    assert_eq!(palette.error, theme.error);
    assert_eq!(theme.agent_color("exec", None), theme.success);
    assert_eq!(theme.agent_color("plan", None), theme.accent2);
    assert_eq!(theme.agent_color("other", None), theme.info);
    assert_eq!(theme.agent_color("exec", Some((1, 2, 3))), rgb(1, 2, 3));
    let facade = ThemeFacade::default();
    assert_eq!(facade.theme().name, "nodecode-default");
    assert_eq!(facade.palette(), palette);
    let over = ThemeOverride { name: None, colors: vec![("success".to_string(), rgb(0, 9, 0))] };
    let made = ThemeFacade::from_theme(theme).apply_overrides(&over);
    assert_eq!(made.theme().success, rgb(0, 9, 0));
    assert_eq!(made.palette().success, rgb(0, 9, 0));
}

#[test]
fn colour_families_start_grey() {
    let scale = ColorScale::default();
    assert_eq!(scale.c50, rgb(249, 250, 251));
    assert_eq!(scale.c500, rgb(107, 114, 128));
    assert_eq!(scale.c950, rgb(3, 7, 18));
    let families = ColorFamilies::default();
    assert_eq!(families.slate, scale);
    assert_eq!(families.red, scale);
}

#[test]
fn list_items_are_styled() {
    let theme = Theme::default();
    let surface = theme.background_surface;
    assert_eq!(
        toggle_item_styles(true, false, &theme, ToggleTone::SuccessError),
        (
            CellStyle::plain().fg(theme.foreground).bg(surface),
            CellStyle::plain().fg(theme.success).bg(surface).bold(),
        )
    );
    assert_eq!(
        toggle_item_styles(false, false, &theme, ToggleTone::SuccessError).1,
        CellStyle::plain().fg(theme.error).bg(surface).bold()
    );
    assert_eq!(
        toggle_item_styles(false, false, &theme, ToggleTone::SuccessSurface).1,
        CellStyle::plain().fg(theme.foreground).bg(surface).bold()
    );
    assert_eq!(
        toggle_item_styles(false, true, &theme, ToggleTone::SuccessError),
        (
            CellStyle::plain().fg(theme.selection).bg(surface),
            CellStyle::plain().fg(theme.selection).bg(surface).bold(),
        )
    );
    let item = toggle_item("Lint".to_string(), true, false, &theme, ToggleTone::SuccessError);
    assert_eq!(item.style, CellStyle::plain().fg(theme.foreground).bg(surface));
    assert_eq!(item.line.spans.len(), 2);
    assert_eq!((item.line.spans[0].text.as_str(), item.line.spans[0].style), ("  ", item.style));
    assert_eq!(item.line.spans[1].text, "Lint");
    assert_eq!(item.line.spans[1].style, CellStyle::plain().fg(theme.success).bg(surface).bold());
    assert_eq!(plain_item_style(false, &theme), theme.primary_style());
    assert_eq!(plain_item_style(true, &theme), theme.style(ThemeElement::Selection).bold());
    let plain = plain_item("Open".to_string(), true, &theme);
    assert_eq!(plain.style, theme.style(ThemeElement::Selection).bold());
    assert_eq!(plain.line.spans[0].text, "  ");
    assert_eq!((plain.line.spans[1].text.as_str(), plain.line.spans[1].style), ("Open", plain.style));
    let styles = value_item_styles(false, &theme, ThemeElement::Info);
    assert_eq!(styles.0, list_item_style(&theme, ThemeElement::Base, false, false));
    assert_eq!(styles.1, theme.primary_style().bold());
    assert_eq!(styles.2, theme.style(ThemeElement::Info));
    let value = value_item("Mode".to_string(), "fast".to_string(), false, &theme, ThemeElement::Info);
    let runs: Vec<(&str, CellStyle)> =
        value.line.spans.iter().map(|s| (s.text.as_str(), s.style)).collect();
    assert_eq!(
        runs,
        vec![
            ("  ", CellStyle::plain()),
            ("Mode", styles.1),
            (" ", CellStyle::plain()),
            ("fast", styles.2),
        ]
    );
    assert_eq!(value.style, styles.0);
    let made = make_list_item("x".to_string(), &theme, false, true);
    assert_eq!(made.style, list_item_style(&theme, ThemeElement::Base, false, true));
    assert_eq!(made.line.spans[0].text, "x");
    let other = make_list_item_with_element("No items".to_string(), &theme, ThemeElement::Tertiary, false, false);
    assert_eq!(other.style, theme.style(ThemeElement::Tertiary));
    assert_eq!(
        dropdown_item_base_style(&theme, true),
        CellStyle::plain().fg(theme.selection).bg(surface).bold()
    );
    assert_eq!(
        dropdown_item_base_style(&theme, false),
        CellStyle::plain().fg(theme.foreground).bg(surface)
    );
    let own = CellStyle::plain().italic();
    assert_eq!(picker_item_base_style(false, own, &theme), own);
    assert_eq!(picker_item_base_style(true, own, &theme), own.fg(theme.selection).bold());
}

#[test]
fn a_list_is_planned_inside_its_chrome() {
    let expected = ListPlan {
        offset: 3,
        end: 8,
        content_area: Rect::new(1, 1, 9, 5),
        thumb: Some(Thumb { height: 1, top: 0, bar_x: 10 }),
    };
    assert_eq!(plan_list(Rect::new(1, 1, 10, 5), 7, 0, 20), Some(expected));
    assert_eq!(
        plan_list(Rect::new(0, 0, 10, 5), 0, 0, 3),
        Some(ListPlan { offset: 0, end: 3, content_area: Rect::new(0, 0, 10, 5), thumb: None })
    );
    assert_eq!(plan_list(Rect::new(0, 0, 0, 5), 0, 0, 3), None);
    assert_eq!(plan_list(Rect::new(0, 0, 5, 0), 0, 0, 3), None);
    let bordered = ListChrome::bordered("Files".to_string());
    assert_eq!(plan_list_with_chrome(Rect::new(0, 0, 12, 7), &bordered, 7, 0, 20), Some(expected));
    let padded = ListChrome::plain().with_padding(Padding::new(1, 0, 1, 1));
    assert_eq!(plan_list_with_chrome(Rect::new(0, 0, 11, 7), &padded, 7, 0, 20), Some(expected));
    assert_eq!(plan_list_with_chrome(Rect::new(0, 0, 2, 2), &bordered, 0, 0, 20), None);
}

#[test]
fn lines_are_placed_and_windowed() {
    assert_eq!(line_offset(Alignment::Left, 10, 4), (0, 10));
    assert_eq!(line_offset(Alignment::Center, 10, 4), (3, 7));
    assert_eq!(line_offset(Alignment::Right, 10, 4), (6, 4));
    assert_eq!(line_offset(Alignment::Right, 10, 20), (0, 10));
    assert_eq!(line_offset(Alignment::Center, 10, 20), (0, 10));
    assert_eq!(line_offset(Alignment::Right, 0, 3), (0, 0));
    let area = Rect::new(0, 0, 10, 5);
    assert_eq!(
        lines_window(area, 10, 3, 2),
        LinesWindow { history: Some(LinesRun { from: 2, to: 7, area }), tail: None }
    );
    assert_eq!(
        lines_window(area, 10, 3, 8),
        LinesWindow {
            history: Some(LinesRun { from: 8, to: 10, area: Rect::new(0, 0, 10, 2) }),
            tail: Some(LinesRun { from: 0, to: 3, area: Rect::new(0, 2, 10, 3) }),
        }
    );
    assert_eq!(
        lines_window(area, 10, 3, 10),
        LinesWindow { history: None, tail: Some(LinesRun { from: 0, to: 3, area }) }
    );
    assert_eq!(
        lines_window(area, 10, 3, 12),
        LinesWindow { history: None, tail: Some(LinesRun { from: 2, to: 3, area }) }
    );
    assert_eq!(lines_window(area, 10, 3, 14), LinesWindow { history: None, tail: None });
    assert_eq!(
        lines_window(Rect::new(0, 0, 10, 0), 10, 3, 2),
        LinesWindow { history: None, tail: None }
    );
}

#[derive(Clone, Debug, PartialEq)]
struct Hook {
    id: u32,
    name: String,
}

impl WizardItem for Hook {
    type Id = u32;

    fn id(&self) -> u32 {
        self.id
    }

    fn display_name(&self) -> String {
        self.name.clone()
    }

    fn is_valid(&self) -> Result<(), String> {
        if self.name.is_empty() {
            Err("name is empty".to_string())
        } else {
            Ok(())
        }
    }

    fn default_item() -> Self {
        Hook { id: 0, name: String::new() }
    }
}

struct NameStep {
    title: &'static str,
    keys: usize,
}

impl WizardStep<Hook> for NameStep {
    fn title(&self) -> &str {
        self.title
    }

    fn help_text(&self) -> &str {
        "type a name"
    }

    fn handle_key(&mut self, key: KeyEvent, item: &mut Hook) -> StepAction {
        self.keys += 1;
        match key.code {
            KeyCode::Char(c) => {
                item.name.push(c);
                StepAction::Continue
            }
            KeyCode::Enter => StepAction::Next,
            _ => StepAction::Cancel,
        }
    }

    fn validate(&self, item: &Hook) -> Result<(), String> {
        item.is_valid()
    }

    fn can_skip(&self) -> bool {
        false
    }

    fn navigation_hint(&self) -> Option<&str> {
        None
    }

    fn content_height(&self) -> u16 {
        INPUT_DEFAULT_HEIGHT
    }
}

fn steps() -> Vec<NameStep> {
    vec![
        NameStep { title: "one", keys: 0 },
        NameStep { title: "two", keys: 0 },
        NameStep { title: "three", keys: 0 },
    ]
}

#[test]
fn a_flow_walks_through_its_steps() {
    let mut flow: WizardFlow<Hook, NameStep> = WizardFlow::new(steps(), WizardMode::Creating);
    assert_eq!(flow.step_count(), 3);
    assert_eq!(flow.current_step_number(), 1);
    assert_eq!(flow.current_step().title(), "one");
    assert_eq!(flow.item(), &Hook::default_item());
    assert!(!flow.can_go_back());
    assert!(flow.can_go_forward());
    assert_eq!(flow.go_back(), Err("Already at first step".to_string()));
    assert_eq!(flow.current_step_number(), 1);
    assert_eq!(flow.advance(), Ok(()));
    assert_eq!(flow.advance(), Ok(()));
    assert_eq!(flow.current_step_number(), 3);
    assert_eq!(flow.current_step().title(), "three");
    assert!(flow.can_go_back());
    assert!(!flow.can_go_forward());
    assert_eq!(flow.advance(), Err("Already at last step".to_string()));
    assert_eq!(flow.current_step_number(), 3);
    assert_eq!(flow.go_back(), Ok(()));
    assert_eq!(flow.current_step_number(), 2);
    assert!(matches!(flow.mode, WizardMode::Creating));
}

#[test]
fn keys_go_to_the_current_step() {
    let mut flow: WizardFlow<Hook, NameStep> = WizardFlow::new(steps(), WizardMode::Editing(7));
    assert!(matches!(flow.mode, WizardMode::Editing(7)));
    flow.set_item(Hook { id: 7, name: "a".to_string() });
    assert_eq!(flow.handle_key(key(KeyCode::Char('b'))), StepAction::Continue);
    assert_eq!(flow.handle_key(key(KeyCode::Enter)), StepAction::Next);
    assert_eq!(flow.handle_key(key(KeyCode::Esc)), StepAction::Cancel);
    assert_eq!(flow.item(), &Hook { id: 7, name: "ab".to_string() });
    assert_eq!(flow.current_step().keys, 3);
    assert_eq!(flow.current_step().validate(flow.item()), Ok(()));
    flow.advance().unwrap();
    assert_eq!(flow.current_step().keys, 0);
    let single: WizardFlow<Hook, NameStep> =
        WizardFlow::new(vec![NameStep { title: "only", keys: 0 }], WizardMode::Creating);
    assert!(!single.can_go_forward() && !single.can_go_back());
}

#[test]
fn the_wizard_model_opens_and_closes() {
    let mut model: GenericWizardModel<Hook, NameStep> = GenericWizardModel::new();
    assert!(!model.is_open && model.items.is_empty());
    assert_eq!(model.view_mode, ViewMode::List);
    assert!(model.selected_item().is_none());
    let hooks = vec![Hook { id: 1, name: "a".to_string() }, Hook { id: 2, name: "b".to_string() }];
    model.selected_idx = 5;
    model.list_state.selected = 5;
    model.open(hooks.clone());
    assert!(model.is_open);
    assert_eq!(model.items, hooks);
    assert_eq!((model.selected_idx, model.list_state.selected, model.list_state.viewport_offset), (0, 0, 0));
    assert_eq!(model.selected_item(), Some(&hooks[0]));
    model.selected_idx = 1;
    assert_eq!(model.selected_item(), Some(&hooks[1]));
    model.selected_idx = 2;
    assert_eq!(model.selected_item(), None);
    model.wizard = Some(WizardFlow::new(steps(), WizardMode::Creating));
    model.view_mode = ViewMode::Wizard;
    model.pending_delete = Some(2);
    model.list_state.selected = 1;
    model.close();
    assert!(!model.is_open);
    assert!(model.wizard.is_none() && model.pending_delete.is_none());
    assert_eq!(model.view_mode, ViewMode::List);
    assert_eq!(model.list_state.selected, 0);
    assert_eq!(model.items, hooks);
    let fresh: GenericWizardModel<Hook, NameStep> = GenericWizardModel::default();
    assert!(!fresh.is_open);
}

#[test]
fn the_title_carries_the_step_indicator() {
    assert_eq!(format_title_with_indicator(20, "Title", "[1/3]"), "Title          [1/3]");
    assert_eq!(format_title_with_indicator(11, "Title", "[1/3]"), "Title [1/3]");
    assert_eq!(format_title_with_indicator(8, "Title", "[1/3]"), "Title [1/3]");
    assert_eq!(format_title_with_indicator(0, "", ""), " ");
    assert_eq!(format_title_with_indicator(8, "漢字", "x"), "漢字   x");
    assert_eq!(step_indicator(2, 12), "[2/12]");
    assert_eq!(step_indicator(0, 0), "[0/0]");
    assert_eq!(wizard_title(30, "Hooks", "Name", 1, 3), "Hooks - Name             [1/3]");
    assert_eq!(wizard_title(30, "Hooks", "Name", 1, 3).chars().count(), 30);
}

#[test]
fn the_footer_names_the_keys() {
    assert_eq!(default_nav_text(1, 3), "enter next  esc cancel");
    assert_eq!(default_nav_text(2, 3), "enter next  esc cancel  \u{2190} back");
    assert_eq!(default_nav_text(3, 3), "enter save  esc cancel  \u{2190} back");
    assert_eq!(default_nav_text(1, 1), "enter next  esc cancel");
    assert_eq!(nav_text(Some("space toggle"), 2, 3), "space toggle");
    assert_eq!(nav_text(None, 3, 3), "enter save  esc cancel  \u{2190} back");
    assert_eq!(list_help_text(true, 1), "esc close  n new item");
    assert_eq!(list_help_text(true, 2), "esc close  tab next  n new item");
    assert_eq!(list_help_text(false, 2), "enter edit  esc close  \u{2191}\u{2193} navigate  n new");
    assert_eq!(empty_list_message("Hooks"), "No hooks configured");
    assert_eq!(empty_list_message("MCP Servers"), "No mcp servers configured");
    assert_eq!(confirm_delete_message("lint"), "Delete 'lint'?\n\nThis action cannot be undone.");
}

#[test]
fn the_wizard_shows_the_tab_of_its_mode() {
    assert_eq!(active_tab(ViewMode::List, 0, 1, 2), 0);
    assert_eq!(active_tab(ViewMode::Wizard, 0, 1, 2), 1);
    assert_eq!(active_tab(ViewMode::Confirmation, 0, 5, 2), 1);
    assert_eq!(active_tab(ViewMode::List, 3, 1, 0), 0);
    assert_eq!(
        dialog_opts_hooks(),
        DialogBounds {
            max_width: 60,
            max_height: 20,
            header_rows: 3,
            footer_rows: 1,
            padding: Padding::new(1, 1, 1, 1),
        }
    );
}

#[test]
fn the_bands_of_a_wizard() {
    let area = Rect::new(0, 0, 20, 10);
    assert_eq!(
        input_step_layout(area),
        [Rect::new(0, 0, 20, 1), Rect::new(0, 1, 20, 3), Rect::new(0, 4, 20, 2), Rect::new(0, 6, 20, 4)]
    );
    assert_eq!(padded_list_layout(area), [Rect::new(0, 0, 20, 1), Rect::new(0, 1, 20, 9)]);
    assert_eq!(
        wizard_header_rows(Rect::new(1, 1, 20, 3)),
        [Rect::new(1, 1, 20, 1), Rect::new(1, 2, 20, 1), Rect::new(1, 3, 20, 1)]
    );
    assert_eq!(
        wizard_body_rows(area, 3),
        [Rect::new(0, 0, 20, 3), Rect::new(0, 3, 20, 2), Rect::new(0, 5, 20, 5)]
    );
}

#[test]
fn ready_made_steps_decide_on_keys() {
    assert_eq!(SUMMARY_DEFAULT_HEIGHT, 6);
    assert_eq!(summary_content_height(None), 6);
    assert_eq!(summary_content_height(Some(9)), 9);
    assert_eq!(summary_key_action(Some(StepAction::Save), &key(KeyCode::Esc)), StepAction::Save);
    assert_eq!(summary_key_action(None, &key(KeyCode::Esc)), StepAction::Cancel);
    assert_eq!(summary_key_action(None, &key(KeyCode::Left)), StepAction::Previous);
    assert_eq!(summary_key_action(None, &key(KeyCode::Char('h'))), StepAction::Previous);
    assert_eq!(summary_key_action(None, &key(KeyCode::Enter)), StepAction::Save);
    assert_eq!(summary_key_action(None, &key(KeyCode::Char('x'))), StepAction::Continue);
    assert_eq!(text_step_key(&key(KeyCode::Esc)), TextStepKey::Cancel);
    assert_eq!(text_step_key(&key(KeyCode::Enter)), TextStepKey::Submit);
    assert_eq!(text_step_key(&key(KeyCode::Char('a'))), TextStepKey::Edit);
    assert_eq!(text_step_submit(Ok(())), (None, StepAction::Next));
    assert_eq!(
        text_step_submit(Err("bad".to_string())),
        (Some("bad".to_string()), StepAction::Continue)
    );
    assert_eq!(status_line(Ok("saved".to_string())), ("\u{2713} saved".to_string(), true));
    assert_eq!(status_line(Err("bad".to_string())), ("\u{2717} bad".to_string(), false));
}

#[test]
fn a_program_is_configured() {
    let config = ProgramConfig::new("demo".to_string());
    assert_eq!(config.title, "demo");
    assert_eq!(config.tick_rate_ms, 100);
    assert!(config.exit_keys.esc && config.exit_keys.q && config.exit_keys.ctrl_c);
    assert_eq!(config.theme.theme().name, "nodecode-default");
    let over = ThemeOverride { name: Some("other".to_string()), colors: Vec::new() };
    let changed = config
        .tick_rate(250)
        .exit_keys(ExitKeys { esc: false, q: true, ctrl_c: false })
        .theme(ThemeFacade::default().apply_overrides(&over));
    assert_eq!(changed.title, "demo");
    assert_eq!(changed.tick_rate_ms, 250);
    assert!(!changed.exit_keys.esc && changed.exit_keys.q && !changed.exit_keys.ctrl_c);
    assert_eq!(changed.theme.theme().name, "other");
    assert_eq!(ProgramConfig::default().title, "nodecode-terminal-kit-runtime");
    let error = ProgramError::from_io(std::io::Error::new(std::io::ErrorKind::Other, "gone"));
    let ProgramError::Io(inner) = error;
    assert_eq!(inner.to_string(), "gone");
}

struct Counter {
    total: i64,
}

impl UpdatableComponent<i64> for Counter {
    fn update(&mut self, action: i64) {
        self.total += action;
    }
}

#[test]
fn a_component_takes_actions() {
    let mut counter = Counter { total: 0 };
    counter.update(5);
    counter.update(-2);
    assert_eq!(counter.total, 3);
}
