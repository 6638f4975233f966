use photo_tagger::event_buses::DetailToListEventBus;
use photo_tagger::event_buses::DetailToListEvents;
use photo_tagger::event_buses::ItemToListEventBus;
use photo_tagger::event_buses::ItemToListEvents;
use photo_tagger::event_buses::ListToDetailEventBus;
use photo_tagger::event_buses::ListToDetailEvents;
use photo_tagger::photo::ItemCmd;
use photo_tagger::photo::Msg as ItemMsg;
use photo_tagger::photo::Photo;
use photo_tagger::photo::Props;
use photo_tagger::photo::SaveRequest;
use photo_tagger::photo::UpdateStatus;
use photo_tagger::photo_list::ListCmd;
use photo_tagger::photo_list::ListView;
use photo_tagger::photo_list::Msg as ListMsg;
use photo_tagger::photo_list::PhotoList;
use photo_tagger::tagging::DetailCmd;
use photo_tagger::tagging::Msg as DetailMsg;
use photo_tagger::tagging::Tagging;
use photo_tagger::tagging::Props as DetailProps;
use photo_tagger::urls::name_image_url;

fn fetched_list(filenames: &[&str]) -> PhotoList {
    let mut list = PhotoList::create();
    let cmd = list.update(ListMsg::GetPhotoList);
    assert_eq!(cmd, Some(ListCmd::FetchList));
    assert!(list.getting_photo_list);
    let names: Vec<String> = filenames.iter().map(|f| f.to_string()).collect();
    let cmd = list.update(ListMsg::GetPhotoListOk(names));
    assert_eq!(cmd, None);
    list
}

#[test]
fn fetch_creates_one_notyet_item_per_filename() {
    let list = fetched_list(&["img1.jpg", "img2.jpg", "img3.jpg"]);
    assert!(!list.getting_photo_list);
    assert_eq!(list.items.len(), 3);
    assert_eq!(list.photos.len(), 3);
    for (i, name) in ["img1.jpg", "img2.jpg", "img3.jpg"].iter().enumerate() {
        assert_eq!(list.items[i].photo, *name);
        assert_eq!(list.items[i].update_status, UpdateStatus::NotYet);
        assert_eq!(list.items[i].save_gen, 0);
    }
}

#[test]
fn fetch_failure_is_recorded_and_leaves_no_items() {
    let mut list = PhotoList::create();
    list.update(ListMsg::GetPhotoList);
    let cmd = list.update(ListMsg::GetPhotoListErr("connection refused".to_string()));
    assert_eq!(cmd, None);
    assert!(!list.getting_photo_list);
    assert_eq!(list.get_photo_list_error, Some("connection refused".to_string()));
    assert!(list.items.is_empty());
}

#[test]
fn list_renders_loading_then_failure_or_rows() {
    let mut list = PhotoList::create();
    list.update(ListMsg::GetPhotoList);
    assert!(matches!(list.rendered(), ListView::Loading));
    list.update(ListMsg::GetPhotoListErr("connection refused".to_string()));
    match list.rendered() {
        ListView::FetchFailed(e) => assert_eq!(e, "connection refused"),
        _ => panic!("expected the failure instead of the list"),
    }

    let fetched = fetched_list(&["img1.jpg"]);
    match fetched.rendered() {
        ListView::Rows(items) => {
            assert_eq!(items.len(), 1);
            assert_eq!(items[0].pic_url(), "/pics/img1.jpg");
        }
        _ => panic!("expected the rows"),
    }
}

#[test]
fn click_publishes_the_filename_once_and_keeps_status() {
    let mut item = Photo::create(Props { photo: "img1.jpg".to_string() });
    let cmds = item.update(ItemMsg::ToTag);
    assert_eq!(cmds, vec![ItemCmd::PublishSelection("img1.jpg".to_string())]);
    assert_eq!(item.update_status, UpdateStatus::NotYet);

    // with no detail panel mounted the publish is a silent no-op
    let bus = ListToDetailEventBus::create();
    let deliveries = bus.handle_input(ListToDetailEvents::ToTag("img1.jpg".to_string()));
    assert!(deliveries.is_empty());
}

#[test]
fn skip_resolution_advances_every_item_and_changes_none() {
    let mut list = fetched_list(&["img1.jpg", "img2.jpg"]);
    let mut res_bus = DetailToListEventBus::create();
    let r1 = res_bus.register();
    let r2 = res_bus.register();
    let mut adv_bus = ItemToListEventBus::create();
    let list_handle = adv_bus.register();

    let deliveries = res_bus.handle_input(DetailToListEvents::Done(None));
    assert_eq!(deliveries.len(), 2);
    assert_eq!(deliveries[0].0, r1);
    assert_eq!(deliveries[1].0, r2);

    let mut advances = 0;
    for (i, (_, payload)) in deliveries.into_iter().enumerate() {
        let cmds = list.items[i].update(ItemMsg::Done(payload));
        assert_eq!(cmds, vec![ItemCmd::PublishAdvance]);
        for to in adv_bus.handle_input(ItemToListEvents::Next) {
            assert_eq!(to, list_handle);
            list.update(ListMsg::Next);
            advances += 1;
        }
    }
    assert_eq!(advances, 2);
    assert_eq!(list.scroll_offset, 600);
    assert_eq!(list.items[0].update_status, UpdateStatus::NotYet);
    assert_eq!(list.items[1].update_status, UpdateStatus::NotYet);
}

#[test]
fn chosen_tag_moves_every_item_to_doing_and_saves_each_with_its_own_filename() {
    let mut list = fetched_list(&["img1.jpg", "img2.jpg"]);
    let res_bus = {
        let mut b = DetailToListEventBus::create();
        b.register();
        b.register();
        b
    };

    let deliveries = res_bus.handle_input(DetailToListEvents::Done(Some("cat".to_string())));
    for (i, (_, payload)) in deliveries.into_iter().enumerate() {
        let cmds = list.items[i].update(ItemMsg::Done(payload));
        // exactly one save, carrying this item's filename and the chosen
        // tag, with the advance published after the save started
        assert_eq!(
            cmds,
            vec![
                ItemCmd::StartSave(SaveRequest {
                    photo: list.items[i].photo.clone(),
                    tag: "cat".to_string(),
                    gen: 1,
                }),
                ItemCmd::PublishAdvance,
            ]
        );
        assert_eq!(list.items[i].update_status, UpdateStatus::Doing);
    }
}

#[test]
fn save_success_moves_the_item_to_succeeded() {
    let mut item = Photo::create(Props { photo: "img1.jpg".to_string() });
    item.update(ItemMsg::Done(Some("cat".to_string())));
    let cmds = item.update(ItemMsg::UpdatedOk(1));
    assert!(cmds.is_empty());
    assert_eq!(item.update_status, UpdateStatus::Succeeded);
}

#[test]
fn save_failure_moves_the_item_to_failed_and_leaves_others_untouched() {
    let mut list = fetched_list(&["img1.jpg", "img2.jpg"]);
    list.items[0].update(ItemMsg::Done(Some("cat".to_string())));
    list.items[1].update(ItemMsg::Done(Some("cat".to_string())));
    list.items[0].update(ItemMsg::UpdatedOk(1));

    let cmds = list.items[1].update(ItemMsg::UpdatedErr(1, "500".to_string()));
    assert!(cmds.is_empty());
    assert_eq!(list.items[1].update_status, UpdateStatus::Failed);
    assert_eq!(list.items[0].update_status, UpdateStatus::Succeeded);
}

#[test]
fn stale_completion_is_ignored() {
    let mut item = Photo::create(Props { photo: "img1.jpg".to_string() });
    item.update(ItemMsg::Done(Some("cat".to_string())));
    item.update(ItemMsg::Done(Some("dog".to_string())));
    assert_eq!(item.save_gen, 2);

    // the first request was superseded; its completion is never observed
    let cmds = item.update(ItemMsg::UpdatedOk(1));
    assert!(cmds.is_empty());
    assert_eq!(item.update_status, UpdateStatus::Doing);

    item.update(ItemMsg::UpdatedErr(2, "timeout".to_string()));
    assert_eq!(item.update_status, UpdateStatus::Failed);
}

#[test]
fn completion_without_any_save_started_changes_nothing() {
    let mut item = Photo::create(Props { photo: "img1.jpg".to_string() });
    let cmds = item.update(ItemMsg::UpdatedOk(0));
    assert!(cmds.is_empty());
    assert_eq!(item.update_status, UpdateStatus::NotYet);
}

#[test]
fn full_cycle_save_succeeds() {
    // list fetch returns two photos: two items, both NotYet
    let mut list = fetched_list(&["img1.jpg", "img2.jpg"]);

    let mut sel_bus = ListToDetailEventBus::create();
    let detail_handle = sel_bus.register();
    let mut res_bus = DetailToListEventBus::create();
    res_bus.register();
    res_bus.register();
    let mut adv_bus = ItemToListEventBus::create();
    adv_bus.register();

    let mut detail = Tagging::create(DetailProps { tags_json: "[\"cat\",\"dog\"]".to_string() })
        .expect("vocabulary JSON parses");
    assert_eq!(detail.photo, None);

    // the user clicks img1
    let cmds = list.items[0].update(ItemMsg::ToTag);
    assert_eq!(cmds, vec![ItemCmd::PublishSelection("img1.jpg".to_string())]);
    let deliveries = sel_bus.handle_input(ListToDetailEvents::ToTag("img1.jpg".to_string()));
    assert_eq!(deliveries.len(), 1);
    assert_eq!(deliveries[0].0, detail_handle);
    detail.update(DetailMsg::ToTag(deliveries[0].1.clone()));
    assert_eq!(detail.photo, Some("img1.jpg".to_string()));

    // the user types "cat" and saves
    detail.update(DetailMsg::UITagValueState("cat".to_string()));
    let cmd = detail.update(DetailMsg::Save);
    assert_eq!(cmd, Some(DetailCmd::PublishDone(Some("cat".to_string()))));

    // every mounted item receives the resolution
    let deliveries = res_bus.handle_input(DetailToListEvents::Done(Some("cat".to_string())));
    let mut advance_signals = 0;
    for (i, (_, payload)) in deliveries.into_iter().enumerate() {
        let cmds = list.items[i].update(ItemMsg::Done(payload));
        assert_eq!(list.items[i].update_status, UpdateStatus::Doing);
        match &cmds[0] {
            ItemCmd::StartSave(req) => {
                let url = name_image_url(&req.photo, &req.tag);
                if i == 0 {
                    assert_eq!(url, "/apis/name_image?photo_filename=img1.jpg&name=cat");
                }
            }
            other => panic!("expected a save start, got {:?}", other),
        }
        assert_eq!(cmds[1], ItemCmd::PublishAdvance);
        advance_signals += adv_bus.handle_input(ItemToListEvents::Next).len();
    }
    // the advance fired before any completion was delivered
    assert_eq!(advance_signals, 2);

    // the backend answers img1's request with success
    list.items[0].update(ItemMsg::UpdatedOk(1));
    assert_eq!(list.items[0].update_status, UpdateStatus::Succeeded);
}

#[test]
fn full_cycle_cancel_saves_nothing_and_still_advances() {
    let mut list = fetched_list(&["img1.jpg", "img2.jpg"]);
    let mut res_bus = DetailToListEventBus::create();
    res_bus.register();
    res_bus.register();
    let mut adv_bus = ItemToListEventBus::create();
    adv_bus.register();

    let mut detail = Tagging::create(DetailProps { tags_json: "[\"cat\",\"dog\"]".to_string() })
        .expect("vocabulary JSON parses");
    detail.update(DetailMsg::ToTag("img1.jpg".to_string()));

    let cmd = detail.update(DetailMsg::Cancel);
    assert_eq!(cmd, Some(DetailCmd::PublishDone(None)));

    let deliveries = res_bus.handle_input(DetailToListEvents::Done(None));
    let mut advance_signals = 0;
    for (i, (_, payload)) in deliveries.into_iter().enumerate() {
        let cmds = list.items[i].update(ItemMsg::Done(payload));
        // no persistence request is issued; the advance still fires
        assert_eq!(cmds, vec![ItemCmd::PublishAdvance]);
        assert_eq!(list.items[i].update_status, UpdateStatus::NotYet);
        advance_signals += adv_bus.handle_input(ItemToListEvents::Next).len();
    }
    assert_eq!(advance_signals, 2);
}
