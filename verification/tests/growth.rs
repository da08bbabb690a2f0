use libre_learning::app_data::{card_url, dalle_image_url, AppData, CardItem};
use libre_learning::card::CardRecord;
use libre_learning::download::{DownloadState, HttpOutcome};
use libre_learning::request::RequestConfig;

fn configured() -> AppData {
    let mut data = AppData::default();
    data.request_config = RequestConfig {
        endpoint: String::from("http://host"),
        user_name: String::new(),
        password: String::new(),
    };
    data
}

fn record(id: u16) -> CardRecord {
    CardRecord {
        question_text: String::from("q"),
        context_text: String::from("ctx"),
        label_text: String::from("lbl"),
        placeholder_text: String::from("p"),
        audio_item: None,
        image_item: None,
        id,
    }
}

#[test]
fn card_urls_follow_the_sequential_naming_scheme() {
    assert_eq!(card_url(0), "card_0.json");
    assert_eq!(card_url(7), "card_7.json");
    assert_eq!(card_url(65535), "card_65535.json");
}

#[test]
fn dalle_urls_quote_and_encode_the_texts() {
    assert_eq!(dalle_image_url("a b", "c"), "dalle?context=%22a%20b%22&label=%22c%22");
}

#[test]
fn polling_without_config_refuses_and_keeps_the_slot_idle() {
    let mut data = AppData::default();
    let (polled, action) = data.poll_new_card();
    assert!(matches!(polled, Err(DownloadState::Null)));
    assert!(action.is_none());
    let slot = data.card_download.as_ref().expect("slot created");
    assert!(matches!(slot.download_item.get_download_state(), DownloadState::NotStarted));
}

#[test]
fn polling_starts_the_fetch_of_the_next_card() {
    let mut data = configured();
    let (polled, action) = data.poll_new_card();
    // the starting poll already reports the request as pending
    assert!(matches!(polled, Err(DownloadState::InProgress)));
    assert_eq!(action.expect("request").url, "http://host/card_0.json");

    // a second poll finds the request outstanding and starts nothing
    let (polled, action) = data.poll_new_card();
    assert!(matches!(polled, Err(DownloadState::InProgress)));
    assert!(action.is_none());
}

#[test]
fn a_completed_fetch_hands_out_the_payload() {
    let mut data = configured();
    data.poll_new_card();
    match &mut data.card_download {
        Some(CardItem { download_item }) => {
            download_item.complete(HttpOutcome::Response {
                ok: true,
                status: 200,
                bytes: vec![123],
            });
        },
        None => panic!("slot must exist"),
    }
    let (polled, _) = data.poll_new_card();
    assert_eq!(polled.expect("payload"), vec![123]);
}

#[test]
fn a_decoded_card_is_prepended_with_the_next_id() {
    let mut data = configured();
    data.poll_new_card();
    assert!(data.try_add_new_card(Some(record(9))).is_ok());
    assert!(data.card_download.is_none());
    assert_eq!(data.card_list.len(), 1);
    assert_eq!(data.card_list[0].meta_data.id, 0);
    assert_eq!(data.card_list[0].display_data.get_label(), "lbl");

    // the next card gets the next id and lands in front
    assert!(data.try_add_new_card(Some(record(9))).is_ok());
    assert_eq!(data.card_list.len(), 2);
    assert_eq!(data.card_list[0].meta_data.id, 1);
    assert_eq!(data.card_list[1].meta_data.id, 0);
}

#[test]
fn a_failed_decode_reports_a_parse_error_and_changes_nothing() {
    let mut data = configured();
    data.poll_new_card();
    let r = data.try_add_new_card(None);
    assert!(matches!(r, Err(DownloadState::ParseError)));
    assert!(data.card_list.is_empty());
    assert!(data.card_download.is_some());
    data.clear_card_download();
    assert!(data.card_download.is_none());
}

#[test]
fn connection_tests_probe_the_first_card_resource() {
    let mut data = configured();
    assert!(matches!(data.custom_server_connection_status(), DownloadState::Null));
    let action = data.test_custom_server_connection();
    assert_eq!(action.expect("request").url, "http://host/card_0.json");
    assert!(matches!(data.custom_server_connection_status(), DownloadState::InProgress));
}

#[test]
fn ai_connection_test_uses_the_fixed_probe_query() {
    let mut data = AppData::default();
    data.ai_request_config = RequestConfig {
        endpoint: String::from("http://ai"),
        user_name: String::new(),
        password: String::new(),
    };
    let action = data.test_ai_server_connection();
    assert_eq!(
        action.expect("request").url,
        "http://ai/dalle?context=%22http%20connection%20test%22&label=%22status%20200%22"
    );
    assert!(matches!(data.ai_server_connection_status(), DownloadState::InProgress));
}

#[test]
fn generated_images_reuse_an_existing_reference() {
    let mut data = AppData::default();
    data.ai_request_config = RequestConfig {
        endpoint: String::from("http://ai"),
        user_name: String::new(),
        password: String::new(),
    };
    data.request_config = data.ai_request_config.clone();
    data.poll_new_card();
    data.try_add_new_card(Some(CardRecord {
        image_item: Some(vec![String::from("plain.png"), String::from("dalle?q=1")]),
        ..record(0)
    })).unwrap();

    let (_, action) = data.get_dalle_image_for_card(0);
    // the existing generated-image reference is selected and fetched
    assert_eq!(data.card_list[0].display_data.image_index, 1);
    assert_eq!(action.expect("request").url, "http://ai/dalle?q=1");
}

#[test]
fn generated_images_are_derived_from_the_card_texts_when_missing() {
    let mut data = AppData::default();
    data.ai_request_config = RequestConfig {
        endpoint: String::from("http://ai"),
        user_name: String::new(),
        password: String::new(),
    };
    data.request_config = data.ai_request_config.clone();
    data.poll_new_card();
    data.try_add_new_card(Some(record(0))).unwrap();

    let (bytes, action) = data.get_dalle_image_for_card(0);
    assert!(bytes.is_none());
    assert_eq!(
        action.expect("request").url,
        "http://ai/dalle?context=%22ctx%22&label=%22lbl%22"
    );
    assert_eq!(data.card_list[0].display_data.image_index, 0);
    assert!(data.card_list[0].display_data.has_image());
}

#[test]
fn out_of_range_indices_are_refused() {
    let mut data = configured();
    assert!(!data.card_has_image(0));
    let (bytes, action) = data.get_image_of_card(3);
    assert!(bytes.is_none() && action.is_none());
    let (bytes, action) = data.play_audio_of_card(0);
    assert!(bytes.is_none() && action.is_none());
    assert!(data.load_audio_of_card(1).is_none());
}
