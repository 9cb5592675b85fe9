//! State machine of a conference "pick the next speaker" client.
//!
//! The library holds the decisions of the client: which route a URL leads to,
//! how each page's model reacts to a message, and which request or navigation
//! the surrounding runtime must perform next. The runtime renders the models,
//! performs the effects, and feeds the outcomes back in as messages.

pub mod entity;
pub mod page;
pub mod request;
pub mod route;

pub use route::Route;

use vstd::prelude::*;

verus! {

/// The whole client's state: no page yet, an unknown route, or one of the two
/// pages.
#[derive(Debug, PartialEq)]
pub enum Model {
    Redirect,
    NotFound,
    Home(page::home::Model),
    Settings(page::settings::Model),
}

impl Default for Model {
    fn default() -> (m: Self)
        ensures
            m is Redirect,
    {
        Model::Redirect
    }
}

/// A notice that crosses page borders: a route was pushed onto the browser
/// history.
#[derive(Debug, PartialEq)]
pub enum GMsg {
    RoutePushed(Route),
}

/// What can happen to the client as a whole: the URL changed, or one of the
/// pages got a message of its own.
#[derive(Debug, PartialEq)]
pub enum Msg {
    RouteChanged(Option<Route>),
    HomeMsg(page::home::Msg),
    SettingsMsg(page::settings::Msg),
}

/// What the runtime must do after an update: nothing, push a route onto the
/// browser history, start loading the employee list for a freshly opened
/// page, or carry out a page's own command.
#[derive(Debug, PartialEq)]
pub enum Effect {
    Nothing,
    GoTo(Route),
    LoadList,
    HomeCmd(page::home::Cmd),
    SettingsCmd(page::settings::Cmd),
}

/// A pushed route comes back to the client as a route change.
pub fn sink(g_msg: GMsg) -> (m: Msg)
    ensures
        g_msg matches GMsg::RoutePushed(route) ==> m == Msg::RouteChanged(Some(route)),
{
    match g_msg {
        GMsg::RoutePushed(route) => Msg::RouteChanged(Some(route)),
    }
}

/// How a route change leaves the client: an unknown route shows the missing
/// page; the root redirects home without touching the model; the two real
/// routes open their page fresh, with the employee list to be loaded.
pub open spec fn route_change_post(
    route: Option<Route>,
    m0: Model,
    m1: Model,
    e: Effect,
) -> bool {
    match route {
        None => m1 is NotFound && e == Effect::Nothing,
        Some(Route::Root) => m1 == m0 && e == Effect::GoTo(Route::Home),
        Some(Route::Home) => {
            &&& m1 == Model::Home(page::home::spec_init())
            &&& e == Effect::LoadList
        },
        Some(Route::Settings) => {
            &&& m1 matches Model::Settings(sm) && page::settings::is_init(sm)
            &&& e == Effect::LoadList
        },
    }
}

pub fn change_model_by_route(route: Option<Route>, model: &mut Model) -> (e: Effect)
    ensures
        route_change_post(route, *old(model), *final(model), e),
{
    match route {
        None => {
            *model = Model::NotFound;
            Effect::Nothing
        },
        Some(route) => match route {
            Route::Root => Effect::GoTo(Route::Home),
            Route::Home => {
                *model = Model::Home(page::home::init());
                Effect::LoadList
            },
            Route::Settings => {
                *model = Model::Settings(page::settings::init());
                Effect::LoadList
            },
        },
    }
}

/// The client's transition function. A route change reshapes the whole model;
/// a page's message reaches its page only when that page is open, and its
/// command comes back wrapped; a message for a page that is not open does
/// nothing.
pub fn update(msg: Msg, model: &mut Model) -> (e: Effect)
    ensures
        msg matches Msg::RouteChanged(route) ==> route_change_post(
            route,
            *old(model),
            *final(model),
            e,
        ),
        msg matches Msg::HomeMsg(module_msg) ==> (match *old(model) {
            Model::Home(m0) => {
                &&& *final(model) == Model::Home(page::home::spec_update(module_msg, m0).0)
                &&& e == Effect::HomeCmd(page::home::spec_update(module_msg, m0).1)
            },
            _ => *final(model) == *old(model) && e == Effect::Nothing,
        }),
        msg matches Msg::SettingsMsg(module_msg) ==> (match *old(model) {
            Model::Settings(m0) => {
                &&& *final(model) matches Model::Settings(m1)
                &&& e matches Effect::SettingsCmd(c)
                &&& page::settings::update_post(module_msg, m0, m1, c)
            },
            _ => *final(model) == *old(model) && e == Effect::Nothing,
        }),
{
    match msg {
        Msg::RouteChanged(route) => change_model_by_route(route, model),
        Msg::HomeMsg(module_msg) => match &mut *model {
            Model::Home(module_model) => Effect::HomeCmd(
                page::home::update(module_msg, module_model),
            ),
            _ => Effect::Nothing,
        },
        Msg::SettingsMsg(module_msg) => match &mut *model {
            Model::Settings(module_model) => Effect::SettingsCmd(
                page::settings::update(module_msg, module_model),
            ),
            _ => Effect::Nothing,
        },
    }
}

/// The page a model shows, for the navigation bar and the window title.
pub fn active_page(model: &Model) -> (p: page::Page)
    ensures
        model is Home <==> p is Home,
        model is Settings <==> p is Settings,
        (model is Redirect || model is NotFound) <==> p is Other,
{
    match model {
        Model::Redirect | Model::NotFound => page::Page::Other,
        Model::Home(_) => page::Page::Home,
        Model::Settings(_) => page::Page::Settings,
    }
}

} // verus!
