//! The non-UI application state: connection configurations, the deck, the
//! outstanding card fetch, and the connection-test slots, together with the
//! deck-growth policy (fetching `card_<id>.json` for the next id) and the
//! generated-image URL scheme.

use vstd::prelude::*;
use crate::card::{
    audio_load_post, audio_play_post, dalle_marker, has_dalle_image, image_poll_post, Card,
    CardRecord,
};
use crate::download::{fetch_poll_post, try_fetch_post, Download, DownloadItem, DownloadState};
use crate::request::{HttpRequest, RequestConfig};
use crate::strutil::{contains_substr, dec_of, push_decimal};
use crate::text::push_char;

verus! {

use vstd::string::StringExecFns;

/// The resource name of the card definition with the given id:
/// `card_<id>.json`.
pub open spec fn card_url_of(id: u16) -> Seq<char> {
    seq!['c', 'a', 'r', 'd', '_'] + dec_of(id as nat) + seq!['.', 'j', 's', 'o', 'n']
}

/// Builds the deterministic resource name for card `id`.
pub fn card_url(id: u16) -> (r: String)
    ensures
        r@ == card_url_of(id),
{
    let mut url = String::new();
    url.append("card_");
    push_decimal(&mut url, id);
    url.append(".json");
    proof {
        reveal_strlit("card_");
        reveal_strlit(".json");
        assert("card_"@ =~= seq!['c', 'a', 'r', 'd', '_']);
        assert(".json"@ =~= seq!['.', 'j', 's', 'o', 'n']);
        assert((Seq::<char>::empty() + "card_"@ + dec_of(id as nat)) + ".json"@ =~= card_url_of(
            id,
        ));
    }
    url
}

/// What `qstring::QString` renders for the two pairs `context=<c>` and
/// `label=<l>`: the percent-encoded query string, a function of the two
/// values alone.
pub uninterp spec fn dalle_query_of(context: Seq<char>, label: Seq<char>) -> Seq<char>;

/// Relies on `qstring::QString`: `new` stores the pairs and its `Display`
/// renders them percent-encoded as `context=<c>&label=<l>`.
#[verifier::external_body]
fn dalle_query(context: &str, label: &str) -> (r: String)
    ensures
        r@ == dalle_query_of(context@, label@),
{
    let qs = qstring::QString::new(vec![("context", context), ("label", label)]);
    format!("{}", qs)
}

/// `s` wrapped in double quotes, as the generated-image service expects its
/// query values.
pub open spec fn quoted(s: Seq<char>) -> Seq<char> {
    seq!['"'] + s + seq!['"']
}

fn quote(text: &str) -> (r: String)
    ensures
        r@ == quoted(text@),
{
    let mut out = String::new();
    push_char(&mut out, '"');
    out.append(text);
    push_char(&mut out, '"');
    proof {
        assert((Seq::<char>::empty().push('"') + text@).push('"') =~= quoted(text@));
    }
    out
}

/// The resource name asking the generated-image service for an image of the
/// given card texts: `dalle?` followed by the encoded, quoted texts.
pub open spec fn dalle_url_of(context: Seq<char>, label: Seq<char>) -> Seq<char> {
    seq!['d', 'a', 'l', 'l', 'e', '?'] + dalle_query_of(quoted(context), quoted(label))
}

/// Builds the generated-image resource name for the given card texts.
pub fn dalle_image_url(context: &str, label: &str) -> (r: String)
    ensures
        r@ == dalle_url_of(context@, label@),
{
    let quoted_context = quote(context);
    let quoted_label = quote(label);
    let query = dalle_query(quoted_context.as_str(), quoted_label.as_str());
    let mut url = String::new();
    url.append("dalle?");
    url.append(query.as_str());
    proof {
        reveal_strlit("dalle?");
        assert("dalle?"@ =~= seq!['d', 'a', 'l', 'l', 'e', '?']);
        assert((Seq::<char>::empty() + "dalle?"@) + query@ =~= dalle_url_of(context@, label@));
    }
    url
}

/// The fetch slot for one card definition.
pub struct CardItem {
    pub download_item: DownloadItem,
}

impl CardItem {
    pub fn new(url: &str) -> (r: CardItem)
        ensures
            r.download_item.url@ == url@,
            r.download_item.download is Idle,
    {
        CardItem { download_item: DownloadItem::new(url) }
    }

    /// Polls the card fetch.  On success the raw payload bytes come back;
    /// decoding them into a [`CardRecord`] is the caller's step.
    pub fn fetch_card(&mut self, cfg: &RequestConfig) -> (r: (
        Result<Vec<u8>, DownloadState>,
        Option<HttpRequest>,
    ))
        ensures
            try_fetch_post(old(self).download_item, final(self).download_item, *cfg, r.0, r.1),
    {
        self.download_item.try_fetch_download(cfg)
    }
}

/// Everything the trainer keeps outside the UI: the two connection
/// configurations, the deck, the outstanding card fetch, and one
/// connection-test slot per configuration.
pub struct AppData {
    pub request_config: RequestConfig,
    pub ai_request_config: RequestConfig,
    pub card_list: Vec<Card>,
    pub card_download: Option<CardItem>,
    pub download_item_test: Option<DownloadItem>,
    pub ai_download_item_test: Option<DownloadItem>,
}

impl AppData {
    /// The fields a card-fetch step must not touch.
    pub open spec fn same_but_card_fetch(&self, other: &AppData) -> bool {
        &&& self.request_config == other.request_config
        &&& self.ai_request_config == other.ai_request_config
        &&& self.download_item_test == other.download_item_test
        &&& self.ai_download_item_test == other.ai_download_item_test
    }

    /// Polls the fetch of the next card definition, creating the fetch slot
    /// for `card_<next id>.json` first if none is outstanding.  On `Ok` the
    /// caller decodes the bytes and hands the result to
    /// [`Self::try_add_new_card`].
    pub fn poll_new_card(&mut self) -> (r: (
        Result<Vec<u8>, DownloadState>,
        Option<HttpRequest>,
    ))
        requires
            old(self).card_list@.len() <= 0xFFFF,
        ensures
            final(self).same_but_card_fetch(old(self)),
            final(self).card_list == old(self).card_list,
            old(self).card_download matches Some(it) ==> (final(self).card_download matches Some(
                it2,
            ) && try_fetch_post(
                it.download_item,
                it2.download_item,
                old(self).request_config,
                r.0,
                r.1,
            )),
            old(self).card_download is None ==> (final(self).card_download matches Some(it2) && {
                &&& it2.download_item.url@ == card_url_of(old(self).card_list@.len() as u16)
                &&& (old(self).request_config.is_initialized_spec() ==> {
                    &&& it2.download_item.download is InProgress
                    &&& (r.0 matches Err(DownloadState::InProgress))
                    &&& (r.1 matches Some(req) && req.url@ == old(self).request_config.request_url_of(
                        card_url_of(old(self).card_list@.len() as u16),
                    ))
                })
                &&& (!old(self).request_config.is_initialized_spec() ==> {
                    &&& it2.download_item.download is Idle
                    &&& (r.0 matches Err(DownloadState::Null))
                    &&& r.1 is None
                })
            }),
    {
        match &mut self.card_download {
            Some(item) => item.fetch_card(&self.request_config),
            None => {
                let id: u16 = self.card_list.len() as u16;
                let url = card_url(id);
                let mut item = CardItem::new(url.as_str());
                let r = item.fetch_card(&self.request_config);
                self.card_download = Some(item);
                r
            },
        }
    }

    /// Installs a decoded card definition, or reports that decoding failed.
    /// On success the new card is assigned the next id, given an empty
    /// history, and prepended to the deck, and the fetch slot is cleared; a
    /// failed decode leaves everything as it was.
    pub fn try_add_new_card(&mut self, parsed: Option<CardRecord>) -> (r: Result<
        (),
        DownloadState,
    >)
        requires
            old(self).card_list@.len() <= 0xFFFF,
        ensures
            final(self).same_but_card_fetch(old(self)),
            parsed is None ==> (r matches Err(DownloadState::ParseError) && final(self).card_list
                == old(self).card_list && final(self).card_download == old(self).card_download),
            parsed matches Some(rec) ==> {
                &&& r is Ok
                &&& final(self).card_download is None
                &&& final(self).card_list@.len() == old(self).card_list@.len() + 1
                &&& final(self).card_list@.skip(1) == old(self).card_list@
                &&& final(self).card_list@[0].wf()
                &&& final(self).card_list@[0].meta_data.id == old(self).card_list@.len() as u16
                &&& final(self).card_list@[0].meta_data.scores@.len() == 0
                &&& final(self).card_list@[0].meta_data.timestamps@.len() == 0
                &&& final(self).card_list@[0].display_data.question_text@ == rec.question_text@
                &&& final(self).card_list@[0].display_data.context_text@ == rec.context_text@
                &&& final(self).card_list@[0].display_data.label_text@ == rec.label_text@
                &&& final(self).card_list@[0].display_data.placeholder_text@
                    == rec.placeholder_text@
                &&& (final(self).card_list@[0].display_data.audio_item is Some <==> rec.audio_item
                    is Some)
                &&& ((rec.image_item is None || (rec.image_item matches Some(urls) && urls@.len()
                    == 0)) ==> final(self).card_list@[0].display_data.image_item is None)
                &&& (rec.image_item matches Some(urls) ==> urls@.len() > 0
                    ==> crate::card::images_match_urls(
                    final(self).card_list@[0].display_data,
                    urls@,
                ))
            },
    {
        match parsed {
            None => Err(DownloadState::ParseError),
            Some(rec) => {
                let id: u16 = self.card_list.len() as u16;
                let card = Card::from_record(rec, id);
                let ghost before = self.card_list@;
                self.card_list.insert(0, card);
                proof {
                    assert(self.card_list@.skip(1) =~= before);
                }
                self.card_download = None;
                Ok(())
            },
        }
    }

    /// Forgets a failed card fetch so that the next trigger starts fresh.
    pub fn clear_card_download(&mut self)
        ensures
            final(self).same_but_card_fetch(old(self)),
            final(self).card_list == old(self).card_list,
            final(self).card_download is None,
    {
        self.card_download = None;
    }

    /// The state of the last connection test against the card server;
    /// `Null` when none was started.
    pub fn custom_server_connection_status(&self) -> (r: DownloadState)
        ensures
            self.download_item_test is None ==> r is Null,
            self.download_item_test matches Some(it) ==> {
                &&& (it.download is Idle ==> r is NotStarted)
                &&& (it.download is InProgress ==> r is InProgress)
                &&& (it.download is Done ==> r is Done)
                &&& (it.download matches Download::Failed(m) ==> (r matches DownloadState::Failed(
                    d,
                ) && d@ == m@))
            },
    {
        match &self.download_item_test {
            None => DownloadState::Null,
            Some(it) => it.get_download_state(),
        }
    }

    /// Starts a fresh connection test against the card server by fetching
    /// its first card resource.
    pub fn test_custom_server_connection(&mut self) -> (action: Option<HttpRequest>)
        ensures
            final(self).request_config == old(self).request_config,
            final(self).ai_request_config == old(self).ai_request_config,
            final(self).card_list == old(self).card_list,
            final(self).card_download == old(self).card_download,
            final(self).ai_download_item_test == old(self).ai_download_item_test,
            final(self).download_item_test matches Some(it) && it.url@ == "card_0.json"@ && (old(self).request_config.is_initialized_spec() ==> (it.download is InProgress && (
            action matches Some(req) && req.url@ == old(self).request_config.request_url_of(
                "card_0.json"@,
            )))) && (!old(self).request_config.is_initialized_spec() ==> (it.download is Idle
                && action is None)),
    {
        let mut item = DownloadItem::new("card_0.json");
        let (_, action) = item.fetch_download(&self.request_config);
        self.download_item_test = Some(item);
        action
    }

    /// The state of the last connection test against the generated-image
    /// server; `Null` when none was started.
    pub fn ai_server_connection_status(&self) -> (r: DownloadState)
        ensures
            self.ai_download_item_test is None ==> r is Null,
            self.ai_download_item_test matches Some(it) ==> {
                &&& (it.download is Idle ==> r is NotStarted)
                &&& (it.download is InProgress ==> r is InProgress)
                &&& (it.download is Done ==> r is Done)
                &&& (it.download matches Download::Failed(m) ==> (r matches DownloadState::Failed(
                    d,
                ) && d@ == m@))
            },
    {
        match &self.ai_download_item_test {
            None => DownloadState::Null,
            Some(it) => it.get_download_state(),
        }
    }

    /// Starts a fresh connection test against the generated-image server
    /// with a fixed probe query.
    pub fn test_ai_server_connection(&mut self) -> (action: Option<HttpRequest>)
        ensures
            final(self).request_config == old(self).request_config,
            final(self).ai_request_config == old(self).ai_request_config,
            final(self).card_list == old(self).card_list,
            final(self).card_download == old(self).card_download,
            final(self).download_item_test == old(self).download_item_test,
            final(self).ai_download_item_test matches Some(it) && it.url@ == dalle_url_of(
                "http connection test"@,
                "status 200"@,
            ) && (old(self).ai_request_config.is_initialized_spec() ==> (it
                .download is InProgress && (action matches Some(req) && req.url@ == old(self).ai_request_config.request_url_of(
                dalle_url_of("http connection test"@, "status 200"@),
            )))) && (!old(self).ai_request_config.is_initialized_spec() ==> (it.download is Idle
                && action is None)),
    {
        let url = dalle_image_url("http connection test", "status 200");
        let mut item = DownloadItem::new(url.as_str());
        let (_, action) = item.fetch_download(&self.ai_request_config);
        self.ai_download_item_test = Some(item);
        action
    }

    /// Whether `index` addresses a card with an image.
    pub fn card_has_image(&self, index: usize) -> (r: bool)
        ensures
            r == (index < self.card_list@.len()
                && self.card_list@[index as int].display_data.image_item is Some),
    {
        if self.card_list.len() <= index {
            return false;
        }
        self.card_list[index].display_data.has_image()
    }

    /// Polls the selected image of the card at `index` for its bytes.
    pub fn get_image_of_card(&mut self, index: usize) -> (r: (
        Option<Vec<u8>>,
        Option<HttpRequest>,
    ))
        requires
            index < old(self).card_list@.len() ==> old(self).card_list@[index as int].display_data.wf(),
        ensures
            final(self).same_but_card_fetch(old(self)),
            final(self).card_download == old(self).card_download,
            index >= old(self).card_list@.len() ==> (final(self).card_list == old(self).card_list
                && r.0 is None && r.1 is None),
            index < old(self).card_list@.len() ==> {
                &&& final(self).card_list@.len() == old(self).card_list@.len()
                &&& (forall|k: int|
                    0 <= k < old(self).card_list@.len() && k != index ==> final(self).card_list@[k] == #[trigger] old(self).card_list@[k])
                &&& final(self).card_list@[index as int].meta_data == old(self).card_list@[index as int].meta_data
                &&& image_poll_post(
                    old(self).card_list@[index as int].display_data,
                    final(self).card_list@[index as int].display_data,
                    old(self).request_config,
                    r.0,
                    r.1,
                )
            },
    {
        if self.card_list.len() <= index {
            return (None, None);
        }
        let ghost before = self.card_list@;
        let mut card = self.card_list.remove(index);
        let r = card.display_data.get_image(&self.request_config);
        let ghost changed = card;
        self.card_list.insert(index, card);
        proof {
            assert(self.card_list@ =~= before.update(index as int, changed));
        }
        r
    }

    /// Polls the audio of the card at `index` for the bytes the caller
    /// should play.
    pub fn play_audio_of_card(&mut self, index: usize) -> (r: (
        Option<Vec<u8>>,
        Option<HttpRequest>,
    ))
        ensures
            final(self).same_but_card_fetch(old(self)),
            final(self).card_download == old(self).card_download,
            index >= old(self).card_list@.len() ==> (final(self).card_list == old(self).card_list
                && r.0 is None && r.1 is None),
            index < old(self).card_list@.len() ==> {
                &&& final(self).card_list@.len() == old(self).card_list@.len()
                &&& (forall|k: int|
                    0 <= k < old(self).card_list@.len() && k != index ==> final(self).card_list@[k] == #[trigger] old(self).card_list@[k])
                &&& final(self).card_list@[index as int].meta_data == old(self).card_list@[index as int].meta_data
                &&& audio_play_post(
                    old(self).card_list@[index as int].display_data,
                    final(self).card_list@[index as int].display_data,
                    old(self).request_config,
                    r.0,
                    r.1,
                )
            },
    {
        if self.card_list.len() <= index {
            return (None, None);
        }
        let ghost before = self.card_list@;
        let mut card = self.card_list.remove(index);
        let r = card.display_data.play_audio(&self.request_config);
        let ghost changed = card;
        self.card_list.insert(index, card);
        proof {
            assert(self.card_list@ =~= before.update(index as int, changed));
        }
        r
    }

    /// Polls a generated image for the card at `index`: the first image
    /// reference already pointing at the generated-image service is
    /// selected, or a fresh one is derived from the card's texts and
    /// appended, and the selected reference is then polled against the
    /// generated-image configuration.
    pub fn get_dalle_image_for_card(&mut self, index: usize) -> (r: (
        Option<Vec<u8>>,
        Option<HttpRequest>,
    ))
        requires
            index < old(self).card_list@.len() ==> old(self).card_list@[index as int].display_data.wf(),
        ensures
            final(self).same_but_card_fetch(old(self)),
            final(self).card_download == old(self).card_download,
            index >= old(self).card_list@.len() ==> (final(self).card_list == old(self).card_list
                && r.0 is None && r.1 is None),
            index < old(self).card_list@.len() ==> {
                let dd = old(self).card_list@[index as int].display_data;
                let fd = final(self).card_list@[index as int].display_data;
                &&& final(self).card_list@.len() == old(self).card_list@.len()
                &&& (forall|k: int|
                    0 <= k < old(self).card_list@.len() && k != index ==> final(self).card_list@[k] == #[trigger] old(self).card_list@[k])
                &&& final(self).card_list@[index as int].meta_data == old(self).card_list@[index as int].meta_data
                &&& fd.same_but_images(&dd)
                &&& fd.wf()
                &&& (has_dalle_image(dd) ==> {
                    &&& fd.image_list().len() == dd.image_list().len()
                    &&& fd.image_index < dd.image_list().len()
                    &&& contains_substr(
                        dd.image_list()[fd.image_index as int].download_item.url@,
                        dalle_marker(),
                    )
                    &&& (forall|k: int|
                        0 <= k < fd.image_index ==> !contains_substr(
                            #[trigger] dd.image_list()[k].download_item.url@,
                            dalle_marker(),
                        ))
                    &&& (forall|k: int|
                        0 <= k < dd.image_list().len() && k != fd.image_index ==> fd.image_list(
                        )[k] == #[trigger] dd.image_list()[k])
                    &&& fetch_poll_post(
                        dd.image_list()[fd.image_index as int].download_item,
                        fd.image_list()[fd.image_index as int].download_item,
                        old(self).ai_request_config,
                        r.0,
                        r.1,
                    )
                })
                &&& (!has_dalle_image(dd) ==> {
                    &&& fd.image_list().len() == dd.image_list().len() + 1
                    &&& fd.image_index == dd.image_list().len()
                    &&& (forall|k: int|
                        0 <= k < dd.image_list().len() ==> fd.image_list()[k] == #[trigger] dd
                            .image_list()[k])
                    &&& fd.image_list().last().download_item.url@ == dalle_url_of(
                        dd.context_text@,
                        dd.label_text@,
                    )
                    &&& r.0 is None
                    &&& (old(self).ai_request_config.is_initialized_spec() ==> (fd.image_list()
                        .last().download_item.download is InProgress && (r.1 matches Some(req)
                        && req.url@ == old(self).ai_request_config.request_url_of(
                        dalle_url_of(dd.context_text@, dd.label_text@),
                    ))))
                    &&& (!old(self).ai_request_config.is_initialized_spec() ==> (fd.image_list()
                        .last().download_item.download is Idle && r.1 is None))
                })
            },
    {
        if self.card_list.len() <= index {
            return (None, None);
        }
        let ghost before = self.card_list@;
        let mut card = self.card_list.remove(index);
        let found = card.display_data.select_dalle_image();
        if !found {
            let context = card.display_data.get_context();
            let label = card.display_data.get_label();
            let url = dalle_image_url(context.as_str(), label.as_str());
            card.display_data.add_image_from_url(url.as_str());
        }
        let r = card.display_data.get_image(&self.ai_request_config);
        let ghost changed = card;
        self.card_list.insert(index, card);
        proof {
            assert(self.card_list@ =~= before.update(index as int, changed));
        }
        r
    }

    /// Starts fetching the audio of the card at `index`, if it has one.
    pub fn load_audio_of_card(&mut self, index: usize) -> (action: Option<HttpRequest>)
        ensures
            final(self).same_but_card_fetch(old(self)),
            final(self).card_download == old(self).card_download,
            index >= old(self).card_list@.len() ==> (final(self).card_list == old(self).card_list
                && action is None),
            index < old(self).card_list@.len() ==> {
                &&& final(self).card_list@.len() == old(self).card_list@.len()
                &&& (forall|k: int|
                    0 <= k < old(self).card_list@.len() && k != index ==> final(self).card_list@[k] == #[trigger] old(self).card_list@[k])
                &&& final(self).card_list@[index as int].meta_data == old(self).card_list@[index as int].meta_data
                &&& audio_load_post(
                    old(self).card_list@[index as int].display_data,
                    final(self).card_list@[index as int].display_data,
                    old(self).request_config,
                    action,
                )
            },
    {
        if self.card_list.len() <= index {
            return None;
        }
        let ghost before = self.card_list@;
        let mut card = self.card_list.remove(index);
        let action = card.display_data.load_audio(&self.request_config);
        let ghost changed = card;
        self.card_list.insert(index, card);
        proof {
            assert(self.card_list@ =~= before.update(index as int, changed));
        }
        action
    }
}

impl Default for AppData {
    /// A fresh trainer: unconfigured connections, an empty deck, nothing
    /// outstanding.
    fn default() -> (r: Self)
        ensures
            !r.request_config.is_initialized_spec(),
            !r.ai_request_config.is_initialized_spec(),
            r.card_list@.len() == 0,
            r.card_download is None,
            r.download_item_test is None,
            r.ai_download_item_test is None,
    {
        AppData {
            request_config: RequestConfig::default(),
            ai_request_config: RequestConfig::default(),
            card_list: Vec::new(),
            card_download: None,
            download_item_test: None,
            ai_download_item_test: None,
        }
    }
}

} // verus!
