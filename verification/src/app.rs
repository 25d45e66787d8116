//! The hierarchical navigation state machine.
//!
//! The dashboard stands at one of two levels: the service kinds, or the
//! resource kinds of one entered service. Input actions move the cursor of
//! the active level's list, descend into the cursor's selection, or return to
//! the parent level; fresh data replaces the active level's list contents.

use vstd::prelude::*;
use crate::list::{
    spec_next, spec_previous, spec_replace, spec_unselect, ListModel, StatefulList,
};
use crate::service::{names_view, Construct, ServiceKind, UnknownVariant};

verus! {

/// A catalog list together with the member the cursor last constructed.
pub struct StatefulEnum<T> {
    /// The constructed member, once a selection has been entered.
    pub current: Option<T>,
    /// The members' display names, with the selection cursor.
    pub items: StatefulList<String>,
}

impl<T: Construct> StatefulEnum<T> {
    /// Builds the list over the catalog's display names, with no selection
    /// and no constructed member.
    pub fn new() -> (catalog: StatefulEnum<T>)
        ensures
            catalog.current is None,
            names_view(catalog.items@.items) == T::spec_items(),
            catalog.items@.selected is None,
    {
        StatefulEnum { current: None, items: StatefulList::with_items(T::get_items()) }
    }

    /// Constructs the member the cursor stands on and records it in
    /// `current`. Without a selection nothing changes; a selected name the
    /// catalog does not carry is refused with `UnknownVariant` and `current`
    /// keeps its old value.
    pub fn select(&mut self) -> (result: Result<(), UnknownVariant>)
        ensures
            final(self).items == old(self).items,
            (match old(self).items@.selected {
                None => result is Ok && final(self).current == old(self).current,
                Some(i) => {
                    let name = old(self).items@.items[i]@;
                    match T::spec_construct(name) {
                        Some(member) => result is Ok && final(self).current == Some(member),
                        None => (result matches Err(e) && e.name@ == name)
                            && final(self).current == old(self).current,
                    }
                },
            }),
    {
        let sel = self.items.selected();
        if let Some(i) = sel {
            let name: &String = &self.items.items()[i];
            match T::construct(name.as_str()) {
                Ok(member) => {
                    self.current = Some(member);
                    Ok(())
                },
                Err(e) => Err(e),
            }
        } else {
            Ok(())
        }
    }
}

/// The navigation level the dashboard stands at. Exactly one level is active;
/// the resource level owns the service it descended from, and drops it on the
/// way back.
pub enum AppState<Svc> {
    /// Browsing the service kinds.
    Services {
        /// The service catalog list.
        service: StatefulEnum<Svc>,
    },
    /// Browsing within one entered service.
    Resources {
        /// The service list as it stood on entry, with the constructed member.
        service: StatefulEnum<Svc>,
        /// The names of the entered service's resources.
        resources: StatefulList<String>,
    },
}

/// The navigation state machine.
pub struct App<Svc> {
    /// The current navigation level and its lists.
    pub state: AppState<Svc>,
}

/// The list the cursor currently moves through, as a model.
pub open spec fn active_list<Svc>(app: App<Svc>) -> ListModel<String> {
    match app.state {
        AppState::Services { service } => service.items@,
        AppState::Resources { resources, .. } => resources@,
    }
}

/// The active level's list takes the given step and everything else stays.
pub open spec fn steps_active_list<Svc>(
    pre: App<Svc>,
    post: App<Svc>,
    stepped: ListModel<String>,
) -> bool {
    match pre.state {
        AppState::Services { service } => (match post.state {
            AppState::Services { service: post_service } => post_service.current == service.current
                && post_service.items@ == stepped,
            _ => false,
        }),
        AppState::Resources { service, resources } => (match post.state {
            AppState::Resources { service: post_service, resources: post_resources } =>
                post_service == service && post_resources@ == stepped,
            _ => false,
        }),
    }
}

/// How `on_esc` relates states: at the resource level the constructed member
/// is dropped and the service list survives, cursor included; at the service
/// level nothing changes.
pub open spec fn esc_rel<Svc>(pre: App<Svc>, post: App<Svc>) -> bool {
    match pre.state {
        AppState::Services { .. } => post == pre,
        AppState::Resources { service, .. } => post == (App::<Svc> {
            state: AppState::Services {
                service: StatefulEnum { current: None, items: service.items },
            },
        }),
    }
}

/// How `on_select` relates states: only at the service level with the cursor
/// on a registered name does navigation descend, owning the constructed
/// member next to a fresh, still-empty resource list; otherwise nothing
/// changes, and an unregistered name is reported.
pub open spec fn enter_rel<Svc: Construct>(
    pre: App<Svc>,
    post: App<Svc>,
    result: Result<(), UnknownVariant>,
) -> bool {
    match pre.state {
        AppState::Services { service } => (match service.items@.selected {
            None => post == pre && result is Ok,
            Some(i) => {
                let name = service.items@.items[i]@;
                match Svc::spec_construct(name) {
                    Some(member) => result is Ok && (match post.state {
                        AppState::Resources { service: post_service, resources } => post_service.current
                            == Some(member) && post_service.items == service.items && resources@.items
                            == Seq::<String>::empty() && resources@.selected is None,
                        _ => false,
                    }),
                    None => post == pre && (result matches Err(e) && e.name@ == name),
                }
            },
        }),
        AppState::Resources { .. } => post == pre && result is Ok,
    }
}

impl<Svc: ServiceKind> App<Svc> {
    /// The service level nothing is constructed at; the resource level owns
    /// the service it entered.
    pub open spec fn wf(&self) -> bool {
        match self.state {
            AppState::Services { service } => service.current is None,
            AppState::Resources { service, .. } => service.current is Some,
        }
    }

    /// Starts at the service level, over the service catalog's names, with no
    /// selection.
    pub fn new() -> (app: App<Svc>)
        ensures
            app.wf(),
            (app.state matches AppState::Services { service } && service.current is None
                && names_view(service.items@.items) == Svc::spec_items()
                && service.items@.selected is None),
    {
        App { state: AppState::Services { service: StatefulEnum::new() } }
    }

    /// Returns to the service level; at the service level this is a no-op.
    pub fn on_esc(&mut self)
        requires
            old(self).wf(),
        ensures
            final(self).wf(),
            esc_rel(*old(self), *final(self)),
    {
        if matches!(&self.state, AppState::Resources { .. }) {
            let mut prev = AppState::Services {
                service: StatefulEnum { current: None, items: StatefulList::with_items(Vec::new()) },
            };
            core::mem::swap(&mut self.state, &mut prev);
            match prev {
                AppState::Resources { mut service, .. } => {
                    service.current = None;
                    self.state = AppState::Services { service };
                },
                AppState::Services { service } => {
                    // The state was just seen to be at the resource level.
                    proof {
                        assert(false);
                    }
                    self.state = AppState::Services { service };
                },
            }
        }
    }

    /// Moves the active level's cursor back by one, wrapping.
    pub fn on_up(&mut self)
        requires
            old(self).wf(),
        ensures
            final(self).wf(),
            steps_active_list(*old(self), *final(self), spec_previous(active_list(*old(self)))),
    {
        match &mut self.state {
            AppState::Services { service } => service.items.previous(),
            AppState::Resources { resources, .. } => resources.previous(),
        }
    }

    /// Advances the active level's cursor by one, wrapping.
    pub fn on_down(&mut self)
        requires
            old(self).wf(),
        ensures
            final(self).wf(),
            steps_active_list(*old(self), *final(self), spec_next(active_list(*old(self)))),
    {
        match &mut self.state {
            AppState::Services { service } => service.items.next(),
            AppState::Resources { resources, .. } => resources.next(),
        }
    }

    /// Clears the active level's selection.
    pub fn on_unselect(&mut self)
        requires
            old(self).wf(),
        ensures
            final(self).wf(),
            steps_active_list(*old(self), *final(self), spec_unselect(active_list(*old(self)))),
    {
        match &mut self.state {
            AppState::Services { service } => service.items.unselect(),
            AppState::Resources { resources, .. } => resources.unselect(),
        }
    }

    /// Descends into the cursor's selection at the service level: constructs
    /// the selected service and enters its resource level with a still-empty
    /// list, to be filled by the first refresh. Anywhere else, or without a
    /// selection, nothing changes; an unregistered name is reported and the
    /// level is kept.
    pub fn on_select(&mut self) -> (result: Result<(), UnknownVariant>)
        requires
            old(self).wf(),
        ensures
            final(self).wf(),
            enter_rel(*old(self), *final(self), result),
    {
        let descend: bool;
        match &mut self.state {
            AppState::Resources { .. } => {
                return Ok(());
            },
            AppState::Services { service } => {
                match service.select() {
                    Err(e) => {
                        return Err(e);
                    },
                    Ok(()) => {
                        descend = service.current.is_some();
                    },
                }
            },
        }
        if descend {
            let mut prev = AppState::Services {
                service: StatefulEnum { current: None, items: StatefulList::with_items(Vec::new()) },
            };
            core::mem::swap(&mut self.state, &mut prev);
            match prev {
                AppState::Services { service } => {
                    self.state = AppState::Resources {
                        service,
                        resources: StatefulList::with_items(Vec::new()),
                    };
                },
                AppState::Resources { service, resources } => {
                    // The state was just seen to be at the service level.
                    proof {
                        assert(false);
                    }
                    self.state = AppState::Resources { service, resources };
                },
            }
        }
        Ok(())
    }

    /// Replaces the active level's list with freshly published names; a
    /// cursor that no longer fits is cleared.
    pub fn on_data(&mut self, items: Vec<String>)
        requires
            old(self).wf(),
        ensures
            final(self).wf(),
            steps_active_list(
                *old(self),
                *final(self),
                spec_replace(active_list(*old(self)), items@),
            ),
    {
        match &mut self.state {
            AppState::Services { service } => service.items.replace_items(items),
            AppState::Resources { resources, .. } => resources.replace_items(items),
        }
    }

    /// Periodic hook of the foreground tick; the base design changes nothing.
    pub fn on_tick(&mut self)
        ensures
            *final(self) == *old(self),
    {
    }
}

} // verus!
