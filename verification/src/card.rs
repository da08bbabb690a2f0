//! Cards: display content, media references, and the append-only attempt
//! history with its derived statistics.

use vstd::prelude::*;
use crate::download::{fetch_poll_post, fetch_start_post, DownloadItem};
use crate::request::{HttpRequest, RequestConfig};
use crate::strutil::{chars_of, contains_chars, contains_substr};

verus! {

/// A card attempted at least this many times within the trailing window is
/// in timeout: saturated for the session and deprioritized.
pub const TIMEOUT_ATTEMPTS: usize = 3;

/// The trailing window (milliseconds) of the timeout rule: seven minutes.
pub const TIMEOUT_WINDOW_MS: u64 = 420000;

/// How many of the most recent outcomes the recency statistics look at.
pub const RECENT_OUTCOMES: usize = 3;

/// How many entries of `s` are `true`.
pub open spec fn count_true(s: Seq<bool>) -> nat
    decreases s.len(),
{
    if s.len() == 0 {
        0
    } else {
        count_true(s.drop_last()) + if s.last() {
            1nat
        } else {
            0nat
        }
    }
}

/// How many entries of `s` are `false`.
pub open spec fn count_false(s: Seq<bool>) -> nat
    decreases s.len(),
{
    if s.len() == 0 {
        0
    } else {
        count_false(s.drop_last()) + if s.last() {
            0nat
        } else {
            1nat
        }
    }
}

/// The `n` most recently appended entries of `s` (all of `s` when shorter).
pub open spec fn last_n<A>(s: Seq<A>, n: int) -> Seq<A> {
    if s.len() <= n {
        s
    } else {
        s.skip(s.len() - n)
    }
}

/// How many entries of `s` are at least `cutoff`.
pub open spec fn count_ge(s: Seq<u64>, cutoff: int) -> nat
    decreases s.len(),
{
    if s.len() == 0 {
        0
    } else {
        count_ge(s.drop_last(), cutoff) + if s.last() >= cutoff {
            1nat
        } else {
            0nat
        }
    }
}

/// Every outcome is either a pass or a fail, so the two counts are bounded
/// by, and sum to, the length.
pub proof fn lemma_count_bounds(s: Seq<bool>)
    ensures
        count_true(s) + count_false(s) == s.len(),
    decreases s.len(),
{
    if s.len() > 0 {
        lemma_count_bounds(s.drop_last());
    }
}

/// The recency statistics of one card never exceed the window size.
pub proof fn lemma_recent_counts_bounded(s: Seq<bool>)
    ensures
        count_true(last_n(s, RECENT_OUTCOMES as int)) <= RECENT_OUTCOMES,
        count_false(last_n(s, RECENT_OUTCOMES as int)) <= RECENT_OUTCOMES,
{
    lemma_count_bounds(last_n(s, RECENT_OUTCOMES as int));
}

/// A card's identity and append-only attempt history: one timestamp and one
/// pass/fail outcome per submitted review, in submission order.
pub struct CardMetaData {
    pub id: u16,
    pub timestamps: Vec<u64>,
    pub scores: Vec<bool>,
}

impl CardMetaData {
    /// The history invariant: the two sequences stay parallel and the
    /// timestamps never decrease.
    pub open spec fn wf(&self) -> bool {
        &&& self.timestamps@.len() == self.scores@.len()
        &&& forall|i: int, j: int|
            0 <= i <= j < self.timestamps@.len() ==> self.timestamps@[i] <= self.timestamps@[j]
    }

    /// A fresh, empty history for card `id`.
    pub fn new(id: u16) -> (r: CardMetaData)
        ensures
            r.wf(),
            r.id == id,
            r.timestamps@ == Seq::<u64>::empty(),
            r.scores@ == Seq::<bool>::empty(),
    {
        CardMetaData { id, timestamps: Vec::new(), scores: Vec::new() }
    }

    /// Appends one attempt to both parallel sequences.  The sequences stay
    /// the same length: that is the history invariant this method preserves.
    pub fn record_attempt(&mut self, timestamp: u64, outcome: bool)
        requires
            old(self).wf(),
            old(self).timestamps@.len() > 0 ==> timestamp >= old(self).timestamps@.last(),
        ensures
            final(self).wf(),
            final(self).id == old(self).id,
            final(self).timestamps@ == old(self).timestamps@.push(timestamp),
            final(self).scores@ == old(self).scores@.push(outcome),
            final(self).timestamps@.len() == final(self).scores@.len(),
    {
        self.timestamps.push(timestamp);
        self.scores.push(outcome);
    }

    /// True iff the card has never been reviewed.
    pub fn is_unseen(&self) -> (r: bool)
        ensures
            r == (self.scores@.len() == 0),
    {
        self.scores.len() == 0
    }

    /// Pass and fail counts among the most recent `RECENT_OUTCOMES` outcomes
    /// (fewer when the history is shorter).
    pub fn recent_outcome_counts(&self) -> (r: (usize, usize))
        ensures
            r.0 == count_true(last_n(self.scores@, RECENT_OUTCOMES as int)),
            r.1 == count_false(last_n(self.scores@, RECENT_OUTCOMES as int)),
    {
        let len = self.scores.len();
        let start: usize = if len <= RECENT_OUTCOMES {
            0
        } else {
            len - RECENT_OUTCOMES
        };
        let ghost tail = last_n(self.scores@, RECENT_OUTCOMES as int);
        proof {
            assert(tail =~= self.scores@.skip(start as int));
        }
        let mut t: usize = 0;
        let mut f: usize = 0;
        let mut i: usize = start;
        while i < len
            invariant
                start <= i <= len,
                len == self.scores@.len(),
                tail == self.scores@.skip(start as int),
                t == count_true(tail.take(i - start)),
                f == count_false(tail.take(i - start)),
                t + f == i - start,
            decreases len - i,
        {
            proof {
                assert(tail.take(i + 1 - start).drop_last() =~= tail.take(i - start));
                assert(tail.take(i + 1 - start).last() == self.scores@[i as int]);
            }
            if self.scores[i] {
                t += 1;
            } else {
                f += 1;
            }
            i += 1;
        }
        proof {
            assert(tail.take(len - start) =~= tail);
        }
        (t, f)
    }

    /// How many recorded attempts lie within the trailing window ending at
    /// `now` (timestamps at least `now - window_ms`).
    pub fn recent_attempt_count_within(&self, window_ms: u64, now: u64) -> (r: usize)
        ensures
            r == count_ge(self.timestamps@, now - window_ms),
    {
        let ghost cutoff: int = now - window_ms;
        let len = self.timestamps.len();
        let mut c: usize = 0;
        let mut i: usize = 0;
        while i < len
            invariant
                0 <= i <= len,
                len == self.timestamps@.len(),
                cutoff == now - window_ms,
                c == count_ge(self.timestamps@.take(i as int), cutoff),
                c <= i,
            decreases len - i,
        {
            proof {
                assert(self.timestamps@.take(i + 1).drop_last() =~= self.timestamps@.take(
                    i as int,
                ));
            }
            let ts = self.timestamps[i];
            let hit = if window_ms >= now {
                true
            } else {
                ts >= now - window_ms
            };
            if hit {
                c += 1;
            }
            i += 1;
        }
        proof {
            assert(self.timestamps@.take(len as int) =~= self.timestamps@);
        }
        c
    }

    /// The timeout rule: at least `TIMEOUT_ATTEMPTS` attempts within the
    /// trailing `TIMEOUT_WINDOW_MS` ending at `now`.
    pub open spec fn in_timeout_spec(&self, now: u64) -> bool {
        count_ge(self.timestamps@, now - TIMEOUT_WINDOW_MS) >= TIMEOUT_ATTEMPTS
    }

    /// Whether the card is saturated for the session and should sink to the
    /// end of the deck.
    pub fn in_timeout(&self, now: u64) -> (r: bool)
        ensures
            r == self.in_timeout_spec(now),
    {
        self.recent_attempt_count_within(TIMEOUT_WINDOW_MS, now) >= TIMEOUT_ATTEMPTS
    }
}

/// A downloadable audio reference.  The caller performs the transfer and the
/// playback; this type only tracks the fetch state.
pub struct AudioItem {
    pub download_item: DownloadItem,
}

impl AudioItem {
    pub fn new(url: &str) -> (r: AudioItem)
        ensures
            r.download_item.url@ == url@,
            r.download_item.download is Idle,
    {
        AudioItem { download_item: DownloadItem::new(url) }
    }

    /// Starts fetching the audio if nothing has been fetched yet.
    pub fn load(&mut self, cfg: &RequestConfig) -> (action: Option<HttpRequest>)
        ensures
            fetch_start_post(old(self).download_item, final(self).download_item, *cfg, action),
    {
        let (_, action) = self.download_item.fetch_download(cfg);
        action
    }

    /// Polls for the audio bytes the caller should play; `None` while the
    /// fetch has not succeeded (yet).
    pub fn play(&mut self, cfg: &RequestConfig) -> (r: (Option<Vec<u8>>, Option<HttpRequest>))
        ensures
            fetch_poll_post(old(self).download_item, final(self).download_item, *cfg, r.0, r.1),
    {
        self.download_item.fetch_download(cfg)
    }
}

/// A downloadable image reference.  Decoding and caching of the decoded
/// image are the caller's concern; this type only tracks the fetch state.
pub struct ImageItem {
    pub download_item: DownloadItem,
}

impl ImageItem {
    pub fn new(url: &str) -> (r: ImageItem)
        ensures
            r.download_item.url@ == url@,
            r.download_item.download is Idle,
    {
        ImageItem { download_item: DownloadItem::new(url) }
    }

    /// Polls for the image bytes; `None` while the fetch has not succeeded.
    pub fn get_image(&mut self, cfg: &RequestConfig) -> (r: (Option<Vec<u8>>, Option<HttpRequest>))
        ensures
            fetch_poll_post(old(self).download_item, final(self).download_item, *cfg, r.0, r.1),
    {
        self.download_item.fetch_download(cfg)
    }
}

/// How polling a card's audio for playback relates the display data before
/// and after the call to the returned bytes and request action: everything
/// but the audio slot is untouched, and the slot itself moves as one fetch
/// poll does.
pub open spec fn audio_play_post(
    a: CardDisplayData,
    b: CardDisplayData,
    cfg: RequestConfig,
    bytes: Option<Vec<u8>>,
    action: Option<HttpRequest>,
) -> bool {
    &&& b.question_text@ == a.question_text@
    &&& b.context_text@ == a.context_text@
    &&& b.label_text@ == a.label_text@
    &&& b.placeholder_text@ == a.placeholder_text@
    &&& b.image_item == a.image_item
    &&& b.image_index == a.image_index
    &&& (a.audio_item is None ==> (b.audio_item is None && bytes is None && action is None))
    &&& (a.audio_item matches Some(x) ==> (b.audio_item matches Some(y) && fetch_poll_post(
        x.download_item,
        y.download_item,
        cfg,
        bytes,
        action,
    )))
}

/// Like [`audio_play_post`], for the load call that drops the bytes.
pub open spec fn audio_load_post(
    a: CardDisplayData,
    b: CardDisplayData,
    cfg: RequestConfig,
    action: Option<HttpRequest>,
) -> bool {
    &&& b.question_text@ == a.question_text@
    &&& b.context_text@ == a.context_text@
    &&& b.label_text@ == a.label_text@
    &&& b.placeholder_text@ == a.placeholder_text@
    &&& b.image_item == a.image_item
    &&& b.image_index == a.image_index
    &&& (a.audio_item is None ==> (b.audio_item is None && action is None))
    &&& (a.audio_item matches Some(x) ==> (b.audio_item matches Some(y) && fetch_start_post(
        x.download_item,
        y.download_item,
        cfg,
        action,
    )))
}

/// How polling the selected image relates the display data before and after
/// the call: every other image reference is untouched, and the selected one
/// moves as one fetch poll does.
pub open spec fn image_poll_post(
    a: CardDisplayData,
    b: CardDisplayData,
    cfg: RequestConfig,
    bytes: Option<Vec<u8>>,
    action: Option<HttpRequest>,
) -> bool {
    &&& b.same_but_images(&a)
    &&& b.image_index == a.image_index
    &&& (a.image_item is None ==> (b.image_item is None && bytes is None && action is None))
    &&& (a.image_item is Some ==> {
        &&& b.image_item is Some
        &&& b.image_list().len() == a.image_list().len()
        &&& (forall|k: int|
            0 <= k < a.image_list().len() && k != a.image_index ==> b.image_list()[k]
                == #[trigger] a.image_list()[k])
        &&& fetch_poll_post(
            a.image_list()[a.image_index as int].download_item,
            b.image_list()[a.image_index as int].download_item,
            cfg,
            bytes,
            action,
        )
    })
}

/// The substring that marks an image URL as pointing at the generated-image
/// service.
pub open spec fn dalle_marker() -> Seq<char> {
    seq!['d', 'a', 'l', 'l', 'e', '?']
}

/// Whether any image reference of the card points at the generated-image
/// service.
pub open spec fn has_dalle_image(dd: CardDisplayData) -> bool {
    exists|k: int|
        0 <= k < dd.image_list().len() && contains_substr(
            #[trigger] dd.image_list()[k].download_item.url@,
            dalle_marker(),
        )
}

/// A card's owned display content: texts, optional audio reference, optional
/// image references with the currently selected image.
pub struct CardDisplayData {
    pub question_text: String,
    pub context_text: String,
    pub label_text: String,
    pub placeholder_text: String,
    pub audio_item: Option<AudioItem>,
    pub image_item: Option<Vec<ImageItem>>,
    pub image_index: usize,
}

impl CardDisplayData {
    /// The image references, empty when there are none.
    pub open spec fn image_list(&self) -> Seq<ImageItem> {
        match self.image_item {
            Some(v) => v@,
            None => Seq::empty(),
        }
    }

    /// The selected image index stays inside the list.
    pub open spec fn wf(&self) -> bool {
        self.image_item is Some ==> self.image_index < self.image_list().len()
    }

    /// All fields except the image list and selection are unchanged.
    pub open spec fn same_but_images(&self, other: &CardDisplayData) -> bool {
        &&& self.question_text@ == other.question_text@
        &&& self.context_text@ == other.context_text@
        &&& self.label_text@ == other.label_text@
        &&& self.placeholder_text@ == other.placeholder_text@
        &&& self.audio_item == other.audio_item
    }

    pub fn get_question(&self) -> (r: String)
        ensures
            r@ == self.question_text@,
    {
        self.question_text.clone()
    }

    pub fn get_context(&self) -> (r: String)
        ensures
            r@ == self.context_text@,
    {
        self.context_text.clone()
    }

    pub fn get_label(&self) -> (r: String)
        ensures
            r@ == self.label_text@,
    {
        self.label_text.clone()
    }

    pub fn get_input_field_placeholder(&self) -> (r: String)
        ensures
            r@ == self.placeholder_text@,
    {
        self.placeholder_text.clone()
    }

    pub fn has_audio(&self) -> (r: bool)
        ensures
            r == (self.audio_item is Some),
    {
        self.audio_item.is_some()
    }

    pub fn has_image(&self) -> (r: bool)
        ensures
            r == (self.image_item is Some),
    {
        self.image_item.is_some()
    }

    /// Appends a fresh image reference for `url` and selects it.
    pub fn add_image_from_url(&mut self, url: &str)
        ensures
            final(self).same_but_images(old(self)),
            final(self).image_item is Some,
            final(self).image_list().len() == old(self).image_list().len() + 1,
            final(self).image_list().take(old(self).image_list().len() as int) == old(
                self,
            ).image_list(),
            final(self).image_list().last().download_item.url@ == url@,
            final(self).image_list().last().download_item.download is Idle,
            final(self).image_index == old(self).image_list().len(),
            final(self).wf(),
    {
        let image = ImageItem::new(url);
        match &mut self.image_item {
            Some(list) => {
                let ghost old_list = list@;
                list.push(image);
                self.image_index = list.len() - 1;
                proof {
                    assert(old_list.push(image).take(old_list.len() as int) =~= old_list);
                }
            },
            None => {
                self.image_item = Some(vec![image]);
                self.image_index = 0;
                proof {
                    assert(final(self).image_list().take(0) =~= Seq::<ImageItem>::empty());
                }
            },
        }
    }

    /// Selects the first image reference whose URL points at the
    /// generated-image service, if any.
    pub fn select_dalle_image(&mut self) -> (found: bool)
        requires
            old(self).wf(),
        ensures
            final(self).same_but_images(old(self)),
            final(self).image_item == old(self).image_item,
            final(self).wf(),
            found == has_dalle_image(*old(self)),
            found ==> {
                &&& final(self).image_index < old(self).image_list().len()
                &&& contains_substr(
                    old(self).image_list()[final(self).image_index as int].download_item.url@,
                    dalle_marker(),
                )
                &&& forall|k: int|
                    0 <= k < final(self).image_index ==> !contains_substr(
                        #[trigger] old(self).image_list()[k].download_item.url@,
                        dalle_marker(),
                    )
            },
            !found ==> final(self).image_index == old(self).image_index,
    {
        let pat: Vec<char> = vec!['d', 'a', 'l', 'l', 'e', '?'];
        proof {
            assert(pat@ =~= dalle_marker());
        }
        if self.image_item.is_none() {
            return false;
        }
        let n = match &self.image_item {
            Some(list) => list.len(),
            None => 0,
        };
        let mut i: usize = 0;
        while i < n
            invariant
                0 <= i <= n,
                self.image_item is Some,
                n == self.image_list().len(),
                self.wf(),
                self.same_but_images(old(self)),
                self.image_item == old(self).image_item,
                self.image_index == old(self).image_index,
                pat@ == dalle_marker(),
                forall|k: int|
                    0 <= k < i ==> !contains_substr(
                        #[trigger] self.image_list()[k].download_item.url@,
                        dalle_marker(),
                    ),
            decreases n - i,
        {
            let hit = match &self.image_item {
                Some(list) => {
                    let url_chars = chars_of(list[i].download_item.url.as_str());
                    contains_chars(&url_chars, &pat)
                },
                None => false,
            };
            if hit {
                self.image_index = i;
                return true;
            }
            i += 1;
        }
        false
    }

    /// Polls the selected image for its bytes; `None` when the card has no
    /// images or the fetch has not succeeded.
    pub fn get_image(&mut self, cfg: &RequestConfig) -> (r: (Option<Vec<u8>>, Option<HttpRequest>))
        requires
            old(self).wf(),
        ensures
            image_poll_post(*old(self), *final(self), *cfg, r.0, r.1),
            final(self).wf(),
    {
        match &mut self.image_item {
            None => (None, None),
            Some(list) => {
                let ghost old_list = list@;
                let idx = self.image_index;
                let mut item = list.remove(idx);
                let r = item.get_image(cfg);
                let ghost new_item = item;
                list.insert(idx, item);
                proof {
                    assert(list@ =~= old_list.update(idx as int, new_item));
                }
                r
            },
        }
    }

    /// Starts fetching the audio reference, if the card has one.
    pub fn load_audio(&mut self, cfg: &RequestConfig) -> (action: Option<HttpRequest>)
        ensures
            audio_load_post(*old(self), *final(self), *cfg, action),
    {
        match &mut self.audio_item {
            None => None,
            Some(audio) => audio.load(cfg),
        }
    }

    /// Polls the audio reference for the bytes the caller should play.
    pub fn play_audio(&mut self, cfg: &RequestConfig) -> (r: (
        Option<Vec<u8>>,
        Option<HttpRequest>,
    ))
        ensures
            audio_play_post(*old(self), *final(self), *cfg, r.0, r.1),
    {
        match &mut self.audio_item {
            None => (None, None),
            Some(audio) => audio.play(cfg),
        }
    }
}

/// The plain contents of one card definition as fetched from the server,
/// already decoded from its wire format.
pub struct CardRecord {
    pub question_text: String,
    pub context_text: String,
    pub label_text: String,
    pub placeholder_text: String,
    pub audio_item: Option<String>,
    pub image_item: Option<Vec<String>>,
    pub id: u16,
}

/// The display data holds one fresh, idle image reference per URL, in order.
pub open spec fn images_match_urls(dd: CardDisplayData, urls: Seq<String>) -> bool {
    &&& dd.image_item is Some
    &&& dd.image_list().len() == urls.len()
    &&& forall|k: int|
        0 <= k < urls.len() ==> (#[trigger] dd.image_list()[k].download_item.url@ == urls[k]@
            && dd.image_list()[k].download_item.download is Idle)
}

/// Fresh, idle image references for the given URLs, in order.
fn image_items_of(urls: &Vec<String>) -> (items: Vec<ImageItem>)
    ensures
        items@.len() == urls@.len(),
        forall|k: int|
            0 <= k < urls@.len() ==> (#[trigger] items@[k].download_item.url@ == urls@[k]@
                && items@[k].download_item.download is Idle),
{
    let mut items: Vec<ImageItem> = Vec::new();
    let n = urls.len();
    let mut i: usize = 0;
    while i < n
        invariant
            0 <= i <= n,
            n == urls@.len(),
            items@.len() == i,
            forall|k: int|
                0 <= k < i ==> (#[trigger] items@[k].download_item.url@ == urls@[k]@ && items@[k]
                    .download_item.download is Idle),
        decreases n - i,
    {
        items.push(ImageItem::new(urls[i].as_str()));
        i += 1;
    }
    items
}

/// One reviewable unit: display content plus attempt history.
pub struct Card {
    pub display_data: CardDisplayData,
    pub meta_data: CardMetaData,
}

impl Card {
    pub open spec fn wf(&self) -> bool {
        &&& self.display_data.wf()
        &&& self.meta_data.wf()
    }

    /// Builds a card from a fetched record, assigning it `id` and an empty
    /// history.
    #[verifier::rlimit(30)]
    pub fn from_record(rec: CardRecord, id: u16) -> (r: Card)
        ensures
            r.wf(),
            r.display_data.question_text@ == rec.question_text@,
            r.display_data.context_text@ == rec.context_text@,
            r.display_data.label_text@ == rec.label_text@,
            r.display_data.placeholder_text@ == rec.placeholder_text@,
            rec.audio_item is None ==> r.display_data.audio_item is None,
            rec.audio_item matches Some(u) ==> (r.display_data.audio_item matches Some(a)
                && a.download_item.url@ == u@ && a.download_item.download is Idle),
            (rec.image_item is None || (rec.image_item matches Some(urls) && urls@.len() == 0))
                ==> r.display_data.image_item is None,
            rec.image_item matches Some(urls) ==> urls@.len() > 0 ==> images_match_urls(
                r.display_data,
                urls@,
            ),
            r.display_data.image_index == 0,
            r.meta_data.id == id,
            r.meta_data.timestamps@ == Seq::<u64>::empty(),
            r.meta_data.scores@ == Seq::<bool>::empty(),
    {
        let ghost grec = rec;
        let audio_item = match rec.audio_item {
            Some(url) => Some(AudioItem::new(url.as_str())),
            None => None,
        };
        let image_item = match rec.image_item {
            Some(urls) => {
                if urls.len() == 0 {
                    None
                } else {
                    Some(image_items_of(&urls))
                }
            },
            None => None,
        };
        let display_data = CardDisplayData {
            question_text: rec.question_text,
            context_text: rec.context_text,
            label_text: rec.label_text,
            placeholder_text: rec.placeholder_text,
            audio_item,
            image_item,
            image_index: 0,
        };
        proof {
            if grec.image_item is Some && grec.image_item->0@.len() > 0 {
                assert(display_data.image_list() == image_item->0@);
                assert(images_match_urls(display_data, grec.image_item->0@));
            }
        }
        Card { display_data, meta_data: CardMetaData::new(id) }
    }
}

} // verus!
