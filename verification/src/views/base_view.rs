//! What every screen has in common.

use vstd::prelude::*;
use crate::db::manage::{Manager, Request, issued};
use crate::input_interface::Events;

verus! {

/// Where a screen asks the session to go next.
#[derive(PartialEq, Eq, Structural, Clone, Copy, Debug)]
pub enum NavigateTo {
    MenuView,
    RoomsView,
    RoomView,
    PeopleView,
    MeView,
    DirectMessageView,
    UserView,
    NoneView,
}

/// A screen: state of its own, a rendering, and a reaction to each event.
/// A screen never touches the connection or the broadcast bus, and never
/// moves an occupancy counter; it answers with an event and the session
/// acts on it.
pub trait View {
    /// The screen's internal invariant.
    spec fn well_formed(&self) -> bool;

    /// The navigation target the screen currently asks for.
    spec fn target(&self) -> NavigateTo;

    fn get_navigate_to(&self) -> (target: &NavigateTo)
        ensures
            *target == self.target(),
    ;

    /// The text of the screen.
    fn render(&self) -> (screen: String)
        requires
            self.well_formed(),
    ;

    /// The requests a refresh makes of the repository, with what the
    /// repository answered: the data that `after`, the refreshed screen, shows.
    spec fn refresh_requests(&self, after: &Self) -> Seq<Request>;

    /// Reads the data behind the screen again.
    fn refresh_data(&mut self, repo: &mut Manager)
        requires
            old(self).well_formed(),
        ensures
            final(self).well_formed(),
            final(self).target() == old(self).target(),
            issued(*old(repo), *final(repo), old(self).refresh_requests(final(self))),
    ;

    /// Reacts to one event. `buffer_string` is the line typed so far while
    /// the session is in a text-entry mode, and the text of the frame
    /// otherwise.
    fn handle_event(&mut self, event: Events, buffer_string: String, repo: &mut Manager) -> (result:
        Events)
        requires
            old(self).well_formed(),
        ensures
            final(self).well_formed(),
            forall|room: int| #[trigger] final(repo).net_joins(room) == old(repo).net_joins(room),
    ;
}

} // verus!
