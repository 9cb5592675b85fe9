use caliaconf::entity::employee::Employee;
use caliaconf::page::{home, settings, Page, Status};
use caliaconf::{active_page, change_model_by_route, sink, update, Effect, GMsg, Model, Msg, Route};

fn employee(id: u128, name: &str, picked: bool) -> Employee {
    Employee {
        uuid: id,
        name: String::from(name),
        picked,
    }
}

#[test]
fn the_client_starts_redirecting() {
    assert_eq!(Model::default(), Model::Redirect);
}

#[test]
fn a_pushed_route_comes_back_as_a_route_change() {
    assert_eq!(
        sink(GMsg::RoutePushed(Route::Settings)),
        Msg::RouteChanged(Some(Route::Settings))
    );
}

#[test]
fn an_unknown_route_shows_the_missing_page() {
    let mut model = Model::default();
    let effect = change_model_by_route(None, &mut model);
    assert_eq!(model, Model::NotFound);
    assert_eq!(effect, Effect::Nothing);
}

#[test]
fn the_root_redirects_home() {
    let mut model = Model::default();
    let effect = change_model_by_route(Some(Route::Root), &mut model);
    assert_eq!(model, Model::Redirect);
    assert_eq!(effect, Effect::GoTo(Route::Home));
}

#[test]
fn the_home_route_opens_a_fresh_home_page() {
    let mut model = Model::default();
    let effect = change_model_by_route(Some(Route::Home), &mut model);
    assert_eq!(model, Model::Home(home::init()));
    assert_eq!(effect, Effect::LoadList);
}

#[test]
fn the_settings_route_opens_a_fresh_settings_page() {
    let mut model = Model::NotFound;
    let effect = change_model_by_route(Some(Route::Settings), &mut model);
    assert_eq!(model, Model::Settings(settings::init()));
    assert_eq!(effect, Effect::LoadList);
}

#[test]
fn a_route_change_message_reshapes_the_model() {
    let mut model = Model::default();
    let effect = update(Msg::RouteChanged(Some(Route::Home)), &mut model);
    assert_eq!(model, Model::Home(home::init()));
    assert_eq!(effect, Effect::LoadList);
}

#[test]
fn a_home_message_reaches_an_open_home_page() {
    let mut model = Model::Home(home::init());
    let list = vec![employee(1, "Ada", false)];
    let effect = update(Msg::HomeMsg(home::Msg::ListLoaded(Ok(list.clone()))), &mut model);
    match model {
        Model::Home(m) => assert_eq!(m.employees, Status::Loaded(list)),
        _ => panic!("the home page should still be open"),
    }
    assert_eq!(effect, Effect::HomeCmd(home::Cmd::Nothing));
}

#[test]
fn a_home_message_is_dropped_elsewhere() {
    let mut model = Model::Settings(settings::init());
    let effect = update(Msg::HomeMsg(home::Msg::PickEmployee), &mut model);
    assert_eq!(model, Model::Settings(settings::init()));
    assert_eq!(effect, Effect::Nothing);
}

#[test]
fn a_settings_message_reaches_an_open_settings_page() {
    let mut model = Model::Settings(settings::init());
    let effect = update(
        Msg::SettingsMsg(settings::Msg::RemoveEmployee(9)),
        &mut model,
    );
    assert_eq!(model, Model::Settings(settings::init()));
    assert_eq!(effect, Effect::SettingsCmd(settings::Cmd::Remove(9)));
}

#[test]
fn a_settings_message_is_dropped_elsewhere() {
    let mut model = Model::Redirect;
    let effect = update(Msg::SettingsMsg(settings::Msg::AddEmployee), &mut model);
    assert_eq!(model, Model::Redirect);
    assert_eq!(effect, Effect::Nothing);
}

#[test]
fn the_active_page_follows_the_model() {
    assert_eq!(active_page(&Model::Redirect), Page::Other);
    assert_eq!(active_page(&Model::NotFound), Page::Other);
    assert_eq!(active_page(&Model::Home(home::init())), Page::Home);
    assert_eq!(active_page(&Model::Settings(settings::init())), Page::Settings);
}
