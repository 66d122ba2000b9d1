//! Key-handling actions of the ECR view.
use vstd::prelude::*;
use vstd::string::*;
use crate::app::{App, Service};
use crate::columns::{id_names, string_names, toggle_visible, toggled_at};
use crate::common::{cycle_next, cycle_prev, page_size_at, page_size_choice, sat_sub, min_usize, InputFocus};
use crate::ecr::{
    console_url_private_repository, console_url_repositories, filter_control_list, filter_controls,
    filtered_ecr_images, filtered_ecr_repositories, filtered_image_rows, filtered_repository_rows,
    State,
};
use crate::table::min_int;

verus! {

/// Whether a repository is open (its images are showing).
pub open spec fn in_images(s: State) -> bool {
    s.current_repository is Some
}

// ── Navigation ───────────────────────────────────────────────────────────────

/// Selects the next image of the open repository, else the next repository,
/// among the rows that pass the filter.
pub fn next_item(app: &mut App)
    ensures
        in_images(old(app).ecr_state) ==> final(app).ecr_state.images.moved_down(
            old(app).ecr_state.images,
            filtered_image_rows(old(app).ecr_state).len() as int,
        ) && final(app).ecr_state.repositories == old(app).ecr_state.repositories,
        !in_images(old(app).ecr_state) ==> final(app).ecr_state.repositories.moved_down(
            old(app).ecr_state.repositories,
            filtered_repository_rows(old(app).ecr_state).len() as int,
        ) && final(app).ecr_state.images == old(app).ecr_state.images,
        final(app).ecr_state.current_repository == old(app).ecr_state.current_repository,
        final(app).ecr_state.input_focus == old(app).ecr_state.input_focus,
        final(app).unchanged_except(*old(app), Service::Ecr),
        final(app).keeps_shell(*old(app)),
{
    if app.ecr_state.current_repository.is_some() {
        let filtered = filtered_ecr_images(&app.ecr_state);
        if filtered.len() > 0 {
            app.ecr_state.images.next_item(filtered.len());
        }
    } else {
        let filtered = filtered_ecr_repositories(&app.ecr_state);
        if filtered.len() > 0 {
            let last = filtered.len() - 1;
            app.ecr_state.repositories.selected = if app.ecr_state.repositories.selected < last {
                app.ecr_state.repositories.selected + 1
            } else {
                last
            };
            app.ecr_state.repositories.snap_to_page();
        }
    }
}

/// Selects the previous image of the open repository, else the previous repository.
pub fn prev_item(app: &mut App)
    ensures
        in_images(old(app).ecr_state) ==> final(app).ecr_state.images.moved_up(old(app).ecr_state.images)
            && final(app).ecr_state.repositories == old(app).ecr_state.repositories,
        !in_images(old(app).ecr_state) ==> final(app).ecr_state.repositories.moved_up(
            old(app).ecr_state.repositories,
        ) && final(app).ecr_state.images == old(app).ecr_state.images,
        final(app).ecr_state.current_repository == old(app).ecr_state.current_repository,
        final(app).unchanged_except(*old(app), Service::Ecr),
        final(app).keeps_shell(*old(app)),
{
    if app.ecr_state.current_repository.is_some() {
        app.ecr_state.images.prev_item();
    } else {
        app.ecr_state.repositories.prev_item();
    }
}

/// In the filter bar: one page down among the repositories when the filter
/// input has the focus, else through the pagination control.
pub fn page_down_filter_input(app: &mut App)
    requires
        old(app).ecr_state.repositories.selected + 100 <= usize::MAX,
    ensures
        old(app).ecr_state.input_focus.same(InputFocus::Filter) ==> final(app).ecr_state.repositories.paged_down(
            old(app).ecr_state.repositories,
            filtered_repository_rows(old(app).ecr_state).len() as int,
        ),
        !old(app).ecr_state.input_focus.same(InputFocus::Filter) && old(app).ecr_state.input_focus.same(
            InputFocus::Pagination,
        ) ==> {
            let ps = old(app).ecr_state.repositories.page_size.rows();
            let n = filtered_repository_rows(old(app).ecr_state).len() as usize;
            &&& final(app).ecr_state.repositories.selected == min_usize(
                (old(app).ecr_state.repositories.selected + ps) as usize,
                sat_sub(n, ps),
            )
            &&& final(app).ecr_state.repositories.scroll_offset == final(app).ecr_state.repositories.selected
        },
        !old(app).ecr_state.input_focus.same(InputFocus::Filter) && !old(app).ecr_state.input_focus.same(
            InputFocus::Pagination,
        ) ==> final(app).ecr_state == old(app).ecr_state,
        final(app).ecr_state.repositories.same_content(old(app).ecr_state.repositories),
        final(app).ecr_state.images == old(app).ecr_state.images,
        final(app).ecr_state.current_repository == old(app).ecr_state.current_repository,
        final(app).unchanged_except(*old(app), Service::Ecr),
        final(app).keeps_shell(*old(app)),
{
    if app.ecr_state.input_focus.is(&InputFocus::Filter) {
        let filtered = filtered_ecr_repositories(&app.ecr_state);
        app.ecr_state.repositories.page_down(filtered.len());
    } else {
        let page_size = app.ecr_state.repositories.page_size.value();
        let filtered_count = filtered_ecr_repositories(&app.ecr_state).len();
        let focus = app.ecr_state.input_focus;
        focus.handle_page_down(
            &mut app.ecr_state.repositories.selected,
            &mut app.ecr_state.repositories.scroll_offset,
            page_size,
            filtered_count,
        );
    }
}

/// One page down among the images of the open repository, else among the repositories.
pub fn page_down_normal(app: &mut App)
    ensures
        in_images(old(app).ecr_state) ==> final(app).ecr_state.images.paged_down(
            old(app).ecr_state.images,
            filtered_image_rows(old(app).ecr_state).len() as int,
        ) && final(app).ecr_state.repositories == old(app).ecr_state.repositories,
        !in_images(old(app).ecr_state) ==> final(app).ecr_state.repositories.paged_down(
            old(app).ecr_state.repositories,
            filtered_repository_rows(old(app).ecr_state).len() as int,
        ) && final(app).ecr_state.images == old(app).ecr_state.images,
        final(app).ecr_state.current_repository == old(app).ecr_state.current_repository,
        final(app).unchanged_except(*old(app), Service::Ecr),
        final(app).keeps_shell(*old(app)),
{
    if app.ecr_state.current_repository.is_some() {
        let filtered = filtered_ecr_images(&app.ecr_state);
        app.ecr_state.images.page_down(filtered.len());
    } else {
        let filtered = filtered_ecr_repositories(&app.ecr_state);
        app.ecr_state.repositories.page_down(filtered.len());
    }
}

/// In the filter bar: one page up among the repositories when the filter input
/// has the focus, else through the pagination control.
pub fn page_up_filter_input(app: &mut App)
    ensures
        old(app).ecr_state.input_focus.same(InputFocus::Filter) ==> final(app).ecr_state.repositories.paged_up(
            old(app).ecr_state.repositories,
        ),
        !old(app).ecr_state.input_focus.same(InputFocus::Filter) && old(app).ecr_state.input_focus.same(
            InputFocus::Pagination,
        ) ==> {
            &&& final(app).ecr_state.repositories.selected == sat_sub(
                old(app).ecr_state.repositories.selected,
                old(app).ecr_state.repositories.page_size.rows(),
            )
            &&& final(app).ecr_state.repositories.scroll_offset == final(app).ecr_state.repositories.selected
        },
        !old(app).ecr_state.input_focus.same(InputFocus::Filter) && !old(app).ecr_state.input_focus.same(
            InputFocus::Pagination,
        ) ==> final(app).ecr_state == old(app).ecr_state,
        final(app).ecr_state.repositories.same_content(old(app).ecr_state.repositories),
        final(app).ecr_state.images == old(app).ecr_state.images,
        final(app).ecr_state.current_repository == old(app).ecr_state.current_repository,
        final(app).unchanged_except(*old(app), Service::Ecr),
        final(app).keeps_shell(*old(app)),
{
    if app.ecr_state.input_focus.is(&InputFocus::Filter) {
        app.ecr_state.repositories.page_up();
    } else {
        let page_size = app.ecr_state.repositories.page_size.value();
        let focus = app.ecr_state.input_focus;
        focus.handle_page_up(
            &mut app.ecr_state.repositories.selected,
            &mut app.ecr_state.repositories.scroll_offset,
            page_size,
        );
    }
}

/// One page up among the images of the open repository, else among the repositories.
pub fn page_up_normal(app: &mut App)
    ensures
        in_images(old(app).ecr_state) ==> final(app).ecr_state.images.paged_up(old(app).ecr_state.images)
            && final(app).ecr_state.repositories == old(app).ecr_state.repositories,
        !in_images(old(app).ecr_state) ==> final(app).ecr_state.repositories.paged_up(
            old(app).ecr_state.repositories,
        ) && final(app).ecr_state.images == old(app).ecr_state.images,
        final(app).ecr_state.current_repository == old(app).ecr_state.current_repository,
        final(app).unchanged_except(*old(app), Service::Ecr),
        final(app).keeps_shell(*old(app)),
{
    if app.ecr_state.current_repository.is_some() {
        app.ecr_state.images.page_up();
    } else {
        app.ecr_state.repositories.page_up();
    }
}

/// Toggles the selected image (or repository) row open.
pub fn next_pane(app: &mut App)
    ensures
        in_images(old(app).ecr_state) ==> final(app).ecr_state.images.expand_toggled(
            old(app).ecr_state.images,
        ) && final(app).ecr_state.repositories == old(app).ecr_state.repositories,
        !in_images(old(app).ecr_state) ==> final(app).ecr_state.repositories.expand_toggled(
            old(app).ecr_state.repositories,
        ) && final(app).ecr_state.images == old(app).ecr_state.images,
        final(app).ecr_state.current_repository == old(app).ecr_state.current_repository,
        final(app).unchanged_except(*old(app), Service::Ecr),
        final(app).keeps_shell(*old(app)),
{
    if app.ecr_state.current_repository.is_some() {
        app.ecr_state.images.toggle_expand();
    } else {
        app.ecr_state.repositories.toggle_expand();
    }
}

/// Closes the open image (or repository) row.
pub fn prev_pane(app: &mut App)
    ensures
        in_images(old(app).ecr_state) ==> final(app).ecr_state.images.collapsed(old(app).ecr_state.images)
            && final(app).ecr_state.repositories == old(app).ecr_state.repositories,
        !in_images(old(app).ecr_state) ==> final(app).ecr_state.repositories.collapsed(
            old(app).ecr_state.repositories,
        ) && final(app).ecr_state.images == old(app).ecr_state.images,
        final(app).ecr_state.current_repository == old(app).ecr_state.current_repository,
        final(app).unchanged_except(*old(app), Service::Ecr),
        final(app).keeps_shell(*old(app)),
{
    if app.ecr_state.current_repository.is_some() {
        app.ecr_state.images.collapse();
    } else {
        app.ecr_state.repositories.collapse();
    }
}

/// Closes the open image (or repository) row.
pub fn collapse_row(app: &mut App)
    ensures
        in_images(old(app).ecr_state) ==> final(app).ecr_state.images.collapsed(old(app).ecr_state.images)
            && final(app).ecr_state.repositories == old(app).ecr_state.repositories,
        !in_images(old(app).ecr_state) ==> final(app).ecr_state.repositories.collapsed(
            old(app).ecr_state.repositories,
        ) && final(app).ecr_state.images == old(app).ecr_state.images,
        final(app).ecr_state.current_repository == old(app).ecr_state.current_repository,
        final(app).unchanged_except(*old(app), Service::Ecr),
        final(app).keeps_shell(*old(app)),
{
    prev_pane(app);
}

/// Jumps to page `page` (0-based) of the filtered images or repositories.
pub fn go_to_page(app: &mut App, page: usize)
    ensures
        in_images(old(app).ecr_state) ==> final(app).ecr_state.images.jumped(
            old(app).ecr_state.images,
            page as int,
            filtered_image_rows(old(app).ecr_state).len() as int,
        ) && final(app).ecr_state.repositories == old(app).ecr_state.repositories,
        !in_images(old(app).ecr_state) ==> final(app).ecr_state.repositories.jumped(
            old(app).ecr_state.repositories,
            page as int,
            filtered_repository_rows(old(app).ecr_state).len() as int,
        ) && final(app).ecr_state.images == old(app).ecr_state.images,
        final(app).ecr_state.current_repository == old(app).ecr_state.current_repository,
        final(app).unchanged_except(*old(app), Service::Ecr),
        final(app).keeps_shell(*old(app)),
{
    if app.ecr_state.current_repository.is_some() {
        let filtered_count = filtered_ecr_images(&app.ecr_state).len();
        app.ecr_state.images.goto_page(page, filtered_count);
    } else {
        let filtered_count = filtered_ecr_repositories(&app.ecr_state).len();
        app.ecr_state.repositories.goto_page(page, filtered_count);
    }
}

// ── Filter ───────────────────────────────────────────────────────────────────

/// Back to the first image (or repository) with no row open.
pub fn apply_filter_reset(app: &mut App)
    ensures
        in_images(old(app).ecr_state) ==> final(app).ecr_state.images.was_reset(old(app).ecr_state.images)
            && final(app).ecr_state.repositories == old(app).ecr_state.repositories,
        !in_images(old(app).ecr_state) ==> final(app).ecr_state.repositories.was_reset(
            old(app).ecr_state.repositories,
        ) && final(app).ecr_state.images == old(app).ecr_state.images,
        final(app).ecr_state.current_repository == old(app).ecr_state.current_repository,
        final(app).unchanged_except(*old(app), Service::Ecr),
        final(app).keeps_shell(*old(app)),
{
    if app.ecr_state.current_repository.is_some() {
        app.ecr_state.images.reset();
    } else {
        app.ecr_state.repositories.reset();
    }
}

/// Gives the filter input the focus in the repositories list.
pub fn start_filter(app: &mut App)
    ensures
        !in_images(old(app).ecr_state) ==> final(app).ecr_state.input_focus == InputFocus::Filter,
        in_images(old(app).ecr_state) ==> final(app).ecr_state.input_focus == old(app).ecr_state.input_focus,
        final(app).ecr_state.repositories == old(app).ecr_state.repositories,
        final(app).ecr_state.images == old(app).ecr_state.images,
        final(app).ecr_state.current_repository == old(app).ecr_state.current_repository,
        final(app).unchanged_except(*old(app), Service::Ecr),
        final(app).keeps_shell(*old(app)),
{
    if app.ecr_state.current_repository.is_none() {
        app.ecr_state.input_focus = InputFocus::Filter;
    }
}

/// Moves the focus to the next control of the filter bar.
pub fn next_filter_focus(app: &mut App)
    ensures
        final(app).ecr_state.input_focus == cycle_next(filter_controls(), old(app).ecr_state.input_focus),
        final(app).ecr_state.repositories == old(app).ecr_state.repositories,
        final(app).ecr_state.images == old(app).ecr_state.images,
        final(app).ecr_state.current_repository == old(app).ecr_state.current_repository,
        final(app).unchanged_except(*old(app), Service::Ecr),
        final(app).keeps_shell(*old(app)),
{
    let controls = filter_control_list();
    app.ecr_state.input_focus = app.ecr_state.input_focus.next(controls.as_slice());
}

/// Moves the focus to the previous control of the filter bar.
pub fn prev_filter_focus(app: &mut App)
    ensures
        final(app).ecr_state.input_focus == cycle_prev(filter_controls(), old(app).ecr_state.input_focus),
        final(app).ecr_state.repositories == old(app).ecr_state.repositories,
        final(app).ecr_state.images == old(app).ecr_state.images,
        final(app).ecr_state.current_repository == old(app).ecr_state.current_repository,
        final(app).unchanged_except(*old(app), Service::Ecr),
        final(app).keeps_shell(*old(app)),
{
    let controls = filter_control_list();
    app.ecr_state.input_focus = app.ecr_state.input_focus.prev(controls.as_slice());
}

/// Whether the pagination control of the repositories list has the focus.
pub fn is_pagination_focused(app: &App) -> (r: bool)
    ensures
        r == (!in_images(app.ecr_state) && app.ecr_state.input_focus.same(InputFocus::Pagination)),
{
    app.ecr_state.current_repository.is_none() && app.ecr_state.input_focus.is(
        &InputFocus::Pagination,
    )
}

// ── Actions ──────────────────────────────────────────────────────────────────

/// Opens the selected repository (among those that pass the filter): its images
/// start from the first row and are marked for loading.
pub fn select_item(app: &mut App)
    ensures
        ({
            let f = filtered_repository_rows(old(app).ecr_state);
            let sel = old(app).ecr_state.repositories.selected;
            if !in_images(old(app).ecr_state) && sel < f.len() {
                let repo = old(app).ecr_state.repositories.items@[f[sel as int] as int];
                &&& final(app).ecr_state.current_repository == Some(repo.name)
                &&& final(app).ecr_state.current_repository_uri == Some(repo.uri)
                &&& final(app).ecr_state.images.was_reset(old(app).ecr_state.images)
                &&& final(app).ecr_state.repositories.loading
                &&& final(app).ecr_state.repositories.items@ == old(app).ecr_state.repositories.items@
                &&& final(app).ecr_state.repositories.selected == old(app).ecr_state.repositories.selected
            } else {
                final(app).ecr_state == old(app).ecr_state
            }
        }),
        final(app).unchanged_except(*old(app), Service::Ecr),
        final(app).keeps_shell(*old(app)),
{
    if app.ecr_state.current_repository.is_none() {
        let filtered = filtered_ecr_repositories(&app.ecr_state);
        match app.ecr_state.repositories.get_selected(&filtered) {
            Some(idx) => {
                proof {
                    crate::table::lemma_kept_indices_bounded(
                        app.ecr_state.repositories.items@.len(),
                        |k: int| crate::ecr::repository_kept(app.ecr_state.repositories.items@[k], app.ecr_state.repositories.filter@),
                    );
                }
                let name = app.ecr_state.repositories.items[idx].name.clone();
                let uri = app.ecr_state.repositories.items[idx].uri.clone();
                app.ecr_state.current_repository = Some(name);
                app.ecr_state.current_repository_uri = Some(uri);
                app.ecr_state.images.reset();
                app.ecr_state.repositories.loading = true;
            },
            None => {},
        }
    }
}

/// Closes the open image row; when none is open, leaves the repository and
/// drops its images.
pub fn go_back(app: &mut App)
    ensures
        old(app).ecr_state.images.expanded_item is Some ==> {
            &&& final(app).ecr_state.images.collapsed(old(app).ecr_state.images)
            &&& final(app).ecr_state.current_repository == old(app).ecr_state.current_repository
            &&& final(app).ecr_state.current_repository_uri == old(app).ecr_state.current_repository_uri
        },
        old(app).ecr_state.images.expanded_item is None ==> {
            &&& final(app).ecr_state.current_repository is None
            &&& final(app).ecr_state.current_repository_uri is None
            &&& final(app).ecr_state.images.items@.len() == 0
            &&& final(app).ecr_state.images.selected == 0
            &&& final(app).ecr_state.images.scroll_offset == 0
            &&& final(app).ecr_state.images.expanded_item is None
        },
        final(app).ecr_state.repositories == old(app).ecr_state.repositories,
        final(app).unchanged_except(*old(app), Service::Ecr),
        final(app).keeps_shell(*old(app)),
{
    if app.ecr_state.images.has_expanded_item() {
        app.ecr_state.images.collapse();
    } else {
        app.ecr_state.current_repository = None;
        app.ecr_state.current_repository_uri = None;
        app.ecr_state.images.items.clear();
        app.ecr_state.images.reset();
    }
}

/// Switches to the other registry; its repositories load from the first row.
pub fn next_detail_tab(app: &mut App)
    ensures
        final(app).ecr_state.tab == old(app).ecr_state.tab.other(),
        final(app).ecr_state.repositories.selected == 0,
        final(app).ecr_state.repositories.scroll_offset == 0,
        final(app).ecr_state.repositories.expanded_item is None,
        final(app).ecr_state.repositories.loading,
        final(app).ecr_state.repositories.items@ == old(app).ecr_state.repositories.items@,
        final(app).ecr_state.images == old(app).ecr_state.images,
        final(app).unchanged_except(*old(app), Service::Ecr),
        final(app).keeps_shell(*old(app)),
{
    app.ecr_state.tab = app.ecr_state.tab.next();
    app.ecr_state.repositories.reset();
    app.ecr_state.repositories.loading = true;
}

/// Switches to the other registry; its repositories load from the first row.
pub fn prev_detail_tab(app: &mut App)
    ensures
        final(app).ecr_state.tab == old(app).ecr_state.tab.other(),
        final(app).ecr_state.repositories.selected == 0,
        final(app).ecr_state.repositories.scroll_offset == 0,
        final(app).ecr_state.repositories.expanded_item is None,
        final(app).ecr_state.repositories.loading,
        final(app).ecr_state.repositories.items@ == old(app).ecr_state.repositories.items@,
        final(app).ecr_state.images == old(app).ecr_state.images,
        final(app).unchanged_except(*old(app), Service::Ecr),
        final(app).keeps_shell(*old(app)),
{
    app.ecr_state.tab = app.ecr_state.tab.prev();
    app.ecr_state.repositories.reset();
    app.ecr_state.repositories.loading = true;
}

/// The text that yanking copies: the URI of the selected image, or of the
/// selected repository; nothing when the cursor is past the filtered rows.
pub fn yank(app: &App) -> (r: Option<String>)
    ensures
        in_images(app.ecr_state) ==> {
            let f = filtered_image_rows(app.ecr_state);
            let sel = app.ecr_state.images.selected;
            match r {
                Some(t) => sel < f.len() && t@ == app.ecr_state.images.items@[f[sel as int] as int].uri@,
                None => sel >= f.len(),
            }
        },
        !in_images(app.ecr_state) ==> {
            let f = filtered_repository_rows(app.ecr_state);
            let sel = app.ecr_state.repositories.selected;
            match r {
                Some(t) => sel < f.len() && t@ == app.ecr_state.repositories.items@[f[sel as int] as int].uri@,
                None => sel >= f.len(),
            }
        },
{
    if app.ecr_state.current_repository.is_some() {
        let filtered = filtered_ecr_images(&app.ecr_state);
        match app.ecr_state.images.get_selected(&filtered) {
            Some(idx) => {
                proof {
                    crate::table::lemma_kept_indices_bounded(
                        app.ecr_state.images.items@.len(),
                        |k: int| crate::ecr::image_kept(app.ecr_state.images.items@[k], app.ecr_state.images.filter@),
                    );
                }
                Some(app.ecr_state.images.items[idx].uri.clone())
            },
            None => None,
        }
    } else {
        let filtered = filtered_ecr_repositories(&app.ecr_state);
        match app.ecr_state.repositories.get_selected(&filtered) {
            Some(idx) => {
                proof {
                    crate::table::lemma_kept_indices_bounded(
                        app.ecr_state.repositories.items@.len(),
                        |k: int| crate::ecr::repository_kept(app.ecr_state.repositories.items@[k], app.ecr_state.repositories.filter@),
                    );
                }
                Some(app.ecr_state.repositories.items[idx].uri.clone())
            },
            None => None,
        }
    }
}

/// One page up among the images (or repositories).
pub fn scroll_up(app: &mut App)
    ensures
        in_images(old(app).ecr_state) ==> final(app).ecr_state.images.paged_up(old(app).ecr_state.images)
            && final(app).ecr_state.repositories == old(app).ecr_state.repositories,
        !in_images(old(app).ecr_state) ==> final(app).ecr_state.repositories.paged_up(
            old(app).ecr_state.repositories,
        ) && final(app).ecr_state.images == old(app).ecr_state.images,
        final(app).ecr_state.current_repository == old(app).ecr_state.current_repository,
        final(app).unchanged_except(*old(app), Service::Ecr),
        final(app).keeps_shell(*old(app)),
{
    page_up_normal(app);
}

/// One page down among the filtered images (or repositories).
pub fn scroll_down(app: &mut App)
    ensures
        in_images(old(app).ecr_state) ==> final(app).ecr_state.images.paged_down(
            old(app).ecr_state.images,
            filtered_image_rows(old(app).ecr_state).len() as int,
        ) && final(app).ecr_state.repositories == old(app).ecr_state.repositories,
        !in_images(old(app).ecr_state) ==> final(app).ecr_state.repositories.paged_down(
            old(app).ecr_state.repositories,
            filtered_repository_rows(old(app).ecr_state).len() as int,
        ) && final(app).ecr_state.images == old(app).ecr_state.images,
        final(app).ecr_state.current_repository == old(app).ecr_state.current_repository,
        final(app).unchanged_except(*old(app), Service::Ecr),
        final(app).keeps_shell(*old(app)),
{
    page_down_normal(app);
}

// ── Column preferences ───────────────────────────────────────────────────────

/// Applies the preferences row under the cursor. For images the rows count
/// from 0 and only toggle columns; for repositories row 0 is the header, rows
/// `1 ..= n` toggle a column and rows `n+3 ..= n+6` pick the page size. The
/// last visible column is never hidden.
pub fn toggle_column(app: &mut App)
    ensures
        ({
            let idx = old(app).column_selector_index as int;
            if in_images(old(app).ecr_state) {
                &&& id_names(final(app).ecr_image_visible_column_ids@) == toggled_at(
                    id_names(old(app).ecr_image_visible_column_ids@),
                    id_names(old(app).ecr_image_column_ids@),
                    idx + 1,
                    true,
                )
                &&& final(app).ecr_repo_visible_column_ids@ == old(app).ecr_repo_visible_column_ids@
                &&& final(app).ecr_state == old(app).ecr_state
            } else {
                let n = old(app).ecr_repo_column_ids@.len() as int;
                &&& id_names(final(app).ecr_repo_visible_column_ids@) == toggled_at(
                    id_names(old(app).ecr_repo_visible_column_ids@),
                    id_names(old(app).ecr_repo_column_ids@),
                    idx,
                    true,
                )
                &&& final(app).ecr_state.repositories.page_size == (if 0 < idx <= n {
                    old(app).ecr_state.repositories.page_size
                } else {
                    match page_size_choice(idx, n) {
                        Some(p) => p,
                        None => old(app).ecr_state.repositories.page_size,
                    }
                })
                &&& final(app).ecr_state.repositories.items@ == old(app).ecr_state.repositories.items@
                &&& final(app).ecr_state.repositories.selected == old(app).ecr_state.repositories.selected
                &&& final(app).ecr_image_visible_column_ids@ == old(app).ecr_image_visible_column_ids@
                &&& final(app).ecr_state.images == old(app).ecr_state.images
            }
        }),
        final(app).ecr_repo_column_ids@ == old(app).ecr_repo_column_ids@,
        final(app).ecr_image_column_ids@ == old(app).ecr_image_column_ids@,
        final(app).ecr_state.current_repository == old(app).ecr_state.current_repository,
        final(app).unchanged_except(*old(app), Service::Ecr),
        final(app).keeps_shell(*old(app)),
{
    let idx = app.column_selector_index;
    if app.ecr_state.current_repository.is_some() {
        if idx < app.ecr_image_column_ids.len() {
            toggle_visible(&mut app.ecr_image_visible_column_ids, &app.ecr_image_column_ids, idx + 1, true);
        }
    } else {
        let n = app.ecr_repo_column_ids.len();
        if idx > 0 && idx <= n {
            toggle_visible(&mut app.ecr_repo_visible_column_ids, &app.ecr_repo_column_ids, idx, true);
        } else {
            match page_size_at(idx, n) {
                Some(p) => {
                    app.ecr_state.repositories.page_size = p;
                },
                None => {},
            }
        }
    }
}

/// Moves the preferences cursor of the images table between its columns and
/// its page-size section (row `columns + 2`).
pub fn next_preferences(app: &mut App)
    requires
        old(app).ecr_image_column_ids@.len() + 2 <= usize::MAX,
    ensures
        final(app).column_selector_index == (if old(app).column_selector_index < old(
            app,
        ).ecr_image_column_ids@.len() + 2 {
            old(app).ecr_image_column_ids@.len() + 2
        } else {
            0
        }),
        final(app).ecr_state == old(app).ecr_state,
        final(app).unchanged_except(*old(app), Service::Other),
        final(app).view_mode == old(app).view_mode,
        final(app).current_service == old(app).current_service,
        final(app).tab_breadcrumb@ == old(app).tab_breadcrumb@,
{
    let page_size_idx = app.ecr_image_column_ids.len() + 2;
    if app.column_selector_index < page_size_idx {
        app.column_selector_index = page_size_idx;
    } else {
        app.column_selector_index = 0;
    }
}

/// Moves the preferences cursor of the images table the other way.
pub fn prev_preferences(app: &mut App)
    requires
        old(app).ecr_image_column_ids@.len() + 2 <= usize::MAX,
    ensures
        final(app).column_selector_index == (if old(app).column_selector_index >= old(
            app,
        ).ecr_image_column_ids@.len() + 2 {
            0
        } else {
            old(app).ecr_image_column_ids@.len() + 2
        }),
        final(app).ecr_state == old(app).ecr_state,
        final(app).unchanged_except(*old(app), Service::Other),
        final(app).view_mode == old(app).view_mode,
        final(app).current_service == old(app).current_service,
        final(app).tab_breadcrumb@ == old(app).tab_breadcrumb@,
{
    let page_size_idx = app.ecr_image_column_ids.len() + 2;
    if app.column_selector_index >= page_size_idx {
        app.column_selector_index = 0;
    } else {
        app.column_selector_index = page_size_idx;
    }
}

/// The last row of the preferences panel.
pub fn column_selector_max(app: &App) -> (r: usize)
    requires
        app.ecr_image_column_ids@.len() + 6 <= usize::MAX,
        app.ecr_repo_column_ids@.len() + 6 <= usize::MAX,
    ensures
        r == (if in_images(app.ecr_state) {
            app.ecr_image_column_ids@.len()
        } else {
            app.ecr_repo_column_ids@.len()
        }) + 6,
{
    if app.ecr_state.current_repository.is_some() {
        app.ecr_image_column_ids.len() + 6
    } else {
        app.ecr_repo_column_ids.len() + 6
    }
}

/// The number of columns of the table on screen.
pub fn column_count(app: &App) -> (r: usize)
    ensures
        r == (if in_images(app.ecr_state) {
            app.ecr_image_column_ids@.len()
        } else {
            app.ecr_repo_column_ids@.len()
        }),
{
    if app.ecr_state.current_repository.is_some() {
        app.ecr_image_column_ids.len()
    } else {
        app.ecr_repo_column_ids.len()
    }
}

// ── Breadcrumb / console URL ─────────────────────────────────────────────────

/// The breadcrumb of the view: `ECR`, then the open repository or `Repositories`.
pub open spec fn breadcrumb_of(s: State) -> Seq<Seq<char>> {
    seq![
        "ECR"@,
        match s.current_repository {
            Some(r) => r@,
            None => "Repositories"@,
        },
    ]
}

/// The breadcrumb of the view.
pub fn breadcrumb(app: &App) -> (r: Vec<String>)
    ensures
        string_names(r@) == breadcrumb_of(app.ecr_state),
{
    let second = match &app.ecr_state.current_repository {
        Some(r) => r.clone(),
        None => String::from_str("Repositories"),
    };
    let r = vec![String::from_str("ECR"), second];
    assert(string_names(r@) =~= breadcrumb_of(app.ecr_state));
    r
}

/// The address of the view in the AWS console: the open private repository, or
/// the repositories list.
pub fn console_url(app: &App) -> (r: String)
    ensures
        r@ == (match app.ecr_state.current_repository {
            Some(name) => "https://"@ + app.config.region@
                + ".console.aws.amazon.com/ecr/repositories/private/"@ + app.config.account_id@
                + "/"@ + name@ + "?region="@ + app.config.region@,
            None => "https://"@ + app.config.region@
                + ".console.aws.amazon.com/ecr/private-registry/repositories?region="@
                + app.config.region@,
        }),
{
    match &app.ecr_state.current_repository {
        Some(name) => console_url_private_repository(
            app.config.region.as_str(),
            app.config.account_id.as_str(),
            name.as_str(),
        ),
        None => console_url_repositories(app.config.region.as_str()),
    }
}

} // verus!
