//! The harvester for the collection pages of Douban: from a fetched page to
//! catalogue records, and from its pagination to an estimate of their
//! number.

use vstd::prelude::*;
use vstd::string::StringExecFns;
use scraper::{ElementRef, Html};
use crate::config_manager::ConfigManager;
use crate::decimal::{decimal, parse_decimal, parse_decimal_in, push_decimal};
use crate::html::{
    attribute_of, document_matches, element_attribute, element_first_text, element_text,
    first_match, first_text_of, html_document, parse_document, select_all, select_first, text_of,
};
use crate::pattern::{is_match, lowercase, regex_found, to_lowercase};
use crate::http::{is_success, is_success_status};
use crate::text::{
    chars_of, contains, find, find_from, find_in, last_nonempty, last_nonempty_piece,
    lemma_find_from, optional_text, same_text, skip_prefixes, split, split_bounds,
    strip_prefixes, substring, text_contains, texts, trim, trim_bounds, trimmed, words,
    words_bounds,
};

verus! {

/// What parts the titles of one work in a title line.
pub open spec fn title_separator() -> Seq<char> {
    " / "@
}

/// The full-width opening parenthesis.
pub open spec fn open_parenthesis() -> Seq<char> {
    "\u{ff08}"@
}

/// The full-width closing parenthesis.
pub open spec fn close_parenthesis() -> Seq<char> {
    "\u{ff09}"@
}

/// The original title in a title line.
///
/// In a line of titles parted by ` / ` it is the second one: the text
/// between the first and the second separator, or all that follows the
/// first where there is no second. Else, in a line with a full-width
/// opening parenthesis, it is the text between the first one and the next
/// full-width closing parenthesis, or all that follows the opening where
/// none closes it. Else it is the line itself.
pub open spec fn original_title(title: Seq<char>) -> Seq<char> {
    match find(title, title_separator()) {
        Some(p) => match find_from(title, title_separator(), p + 3) {
            Some(q) => title.subrange(p + 3, q),
            None => title.skip(p + 3),
        },
        None => match find(title, open_parenthesis()) {
            Some(p) => match find_from(title, close_parenthesis(), p) {
                Some(e) => title.subrange(p + 1, e),
                None => title.skip(p + 1),
            },
            None => title,
        },
    }
}

/// The score that a rating class stands for: 1 to 5 for the five tiers, the
/// lowest tier that the class names; 0 for any other class and for none.
pub open spec fn rating_of(class: Option<Seq<char>>) -> u8 {
    match class {
        Some(c) => if contains(c, "rating1-t"@) {
            1
        } else if contains(c, "rating2-t"@) {
            2
        } else if contains(c, "rating3-t"@) {
            3
        } else if contains(c, "rating4-t"@) {
            4
        } else if contains(c, "rating5-t"@) {
            5
        } else {
            0
        },
        None => 0,
    }
}

/// A tag that marks a work as episodic: series, television drama, the
/// dramas of four countries, animation (two words for it), variety show.
pub open spec fn is_episodic_tag(tag: Seq<char>) -> bool {
    ||| tag == "\u{5267}\u{96c6}"@
    ||| tag == "\u{7535}\u{89c6}\u{5267}"@
    ||| tag == "\u{7f8e}\u{5267}"@
    ||| tag == "\u{65e5}\u{5267}"@
    ||| tag == "\u{97e9}\u{5267}"@
    ||| tag == "\u{82f1}\u{5267}"@
    ||| tag == "\u{52a8}\u{753b}"@
    ||| tag == "\u{52a8}\u{6f2b}"@
    ||| tag == "\u{7efc}\u{827a}"@
}

/// One of the tags marks the work as episodic.
pub open spec fn has_episodic_tag(tags: Seq<Seq<char>>) -> bool {
    exists|i: int| 0 <= i < tags.len() && is_episodic_tag(#[trigger] tags[i])
}

/// The title counts seasons or parts: it holds the ordinal mark and,
/// anywhere, the word for a season or the word for a part.
pub open spec fn has_season_mark(title: Seq<char>) -> bool {
    contains(title, "\u{7b2c}"@) && (contains(title, "\u{5b63}"@) || contains(
        title,
        "\u{90e8}"@,
    ))
}

/// The title holds one of the words that only episodic works carry: serial,
/// theatrical cut, OVA, television animation.
pub open spec fn has_episodic_word(title: Seq<char>) -> bool {
    ||| contains(title, "\u{8fde}\u{7eed}\u{5267}"@)
    ||| contains(title, "\u{5267}\u{573a}\u{7248}"@)
    ||| contains(title, "OVA"@)
    ||| contains(title, "TV\u{52a8}\u{753b}"@)
}

/// The kind of a work, `tv` for an episodic one and `movie` for a single
/// one, given its title, the lower-case form of the title, whether a season
/// code (an `s` and a number) was found in that form, and its tags.
///
/// The tests are made in a fixed order and the first that holds decides:
/// season marks in the title, the word `season` or a season code in its
/// lower-case form, the tags, the episodic words in the title.
pub open spec fn media_kind(
    title: Seq<char>,
    lowered: Seq<char>,
    season_code: bool,
    tags: Seq<Seq<char>>,
) -> Seq<char> {
    if has_season_mark(title) {
        "tv"@
    } else if contains(lowered, "season"@) || season_code {
        "tv"@
    } else if has_episodic_tag(tags) {
        "tv"@
    } else if has_episodic_word(title) {
        "tv"@
    } else {
        "movie"@
    }
}

/// The regular expression of a season code: an `s` and a number.
pub open spec fn season_code_pattern() -> Seq<char> {
    "s\\d+"@
}

/// The kind of a work with the title `title` and the tags `tags`.
pub open spec fn media_type(title: Seq<char>, tags: Seq<Seq<char>>) -> Seq<char> {
    media_kind(
        title,
        lowercase(title),
        regex_found(season_code_pattern(), lowercase(title)) == Some(true),
        tags,
    )
}

/// Every work is of exactly one of the two kinds.
pub proof fn lemma_two_kinds(title: Seq<char>, tags: Seq<Seq<char>>)
    ensures
        media_type(title, tags) == "tv"@ || media_type(title, tags) == "movie"@,
        "tv"@ != "movie"@,
{
    reveal_strlit("tv");
    reveal_strlit("movie");
    assert("tv"@.len() == 2 && "movie"@.len() == 5);
}

/// Whether `tag` marks a work as episodic.
fn tag_is_episodic(tag: &str) -> (r: bool)
    ensures
        r == is_episodic_tag(tag@),
{
    same_text(tag, "\u{5267}\u{96c6}") || same_text(tag, "\u{7535}\u{89c6}\u{5267}") || same_text(
        tag,
        "\u{7f8e}\u{5267}",
    ) || same_text(tag, "\u{65e5}\u{5267}") || same_text(tag, "\u{97e9}\u{5267}") || same_text(
        tag,
        "\u{82f1}\u{5267}",
    ) || same_text(tag, "\u{52a8}\u{753b}") || same_text(tag, "\u{52a8}\u{6f2b}") || same_text(
        tag,
        "\u{7efc}\u{827a}",
    )
}

/// Whether one of `tags` marks a work as episodic.
fn any_episodic_tag(tags: &Vec<String>) -> (r: bool)
    ensures
        r == has_episodic_tag(texts(tags@)),
{
    let mut i: usize = 0;
    while i < tags.len()
        invariant
            i <= tags.len(),
            forall|j: int| 0 <= j < i ==> !is_episodic_tag(#[trigger] texts(tags@)[j]),
        decreases tags.len() - i,
    {
        if tag_is_episodic(tags[i].as_str()) {
            assert(is_episodic_tag(texts(tags@)[i as int]));
            return true;
        }
        i += 1;
    }
    false
}

/// Decides the kind of a work from its title, the lower-case form of the
/// title, whether a season code was found in that form, and its tags.
pub fn classify_media(title: &str, lowered: &str, season_code: bool, tags: &Vec<String>) -> (r:
    String)
    ensures
        r@ == media_kind(title@, lowered@, season_code, texts(tags@)),
{
    let season_mark = text_contains(title, "\u{7b2c}") && (text_contains(title, "\u{5b63}")
        || text_contains(title, "\u{90e8}"));
    let english_season = text_contains(lowered, "season") || season_code;
    let episodic_tag = any_episodic_tag(tags);
    let episodic_word = text_contains(title, "\u{8fde}\u{7eed}\u{5267}") || text_contains(
        title,
        "\u{5267}\u{573a}\u{7248}",
    ) || text_contains(title, "OVA") || text_contains(title, "TV\u{52a8}\u{753b}");
    if season_mark || english_season || episodic_tag || episodic_word {
        String::from_str("tv")
    } else {
        String::from_str("movie")
    }
}

/// The number of records on one listing page.
pub const PAGE_SIZE: u32 = 15;

/// What one item of a listing page holds, as it stands in the page: the
/// text of the title link and its address, the address of the cover
/// picture, the class of the rating mark, and the texts of the date, the
/// comment and the tags. Each is missing where the page has no such
/// element, or the element no such attribute.
#[derive(Clone, Debug, PartialEq, Eq)]
pub struct RawItem {
    pub title: Option<String>,
    pub link: Option<String>,
    pub cover: Option<String>,
    pub rating_class: Option<String>,
    pub date: Option<String>,
    pub comment: Option<String>,
    pub tags: Option<String>,
}

/// `RawItem`, as mathematics sees it.
pub struct RawItemView {
    pub title: Option<Seq<char>>,
    pub link: Option<Seq<char>>,
    pub cover: Option<Seq<char>>,
    pub rating_class: Option<Seq<char>>,
    pub date: Option<Seq<char>>,
    pub comment: Option<Seq<char>>,
    pub tags: Option<Seq<char>>,
}

impl View for RawItem {
    type V = RawItemView;

    open spec fn view(&self) -> RawItemView {
        RawItemView {
            title: optional_text(self.title),
            link: optional_text(self.link),
            cover: optional_text(self.cover),
            rating_class: optional_text(self.rating_class),
            date: optional_text(self.date),
            comment: optional_text(self.comment),
            tags: optional_text(self.tags),
        }
    }
}

/// One entry of the catalogue.
#[derive(Clone, Debug, PartialEq, Eq)]
pub struct DoubanMovie {
    pub title: String,
    pub original_title: String,
    pub douban_id: String,
    pub douban_url: String,
    pub cover_url: String,
    /// The user's score, 1 to 5, or 0 where they gave none.
    pub rating: u8,
    pub watched_date: String,
    /// `movie` or `tv`.
    pub type_: String,
    pub comment: Option<String>,
    pub tags: Vec<String>,
}

/// `DoubanMovie`, as mathematics sees it.
pub struct MovieView {
    pub title: Seq<char>,
    pub original_title: Seq<char>,
    pub douban_id: Seq<char>,
    pub douban_url: Seq<char>,
    pub cover_url: Seq<char>,
    pub rating: u8,
    pub watched_date: Seq<char>,
    pub type_: Seq<char>,
    pub comment: Option<Seq<char>>,
    pub tags: Seq<Seq<char>>,
}

impl View for DoubanMovie {
    type V = MovieView;

    open spec fn view(&self) -> MovieView {
        MovieView {
            title: self.title@,
            original_title: self.original_title@,
            douban_id: self.douban_id@,
            douban_url: self.douban_url@,
            cover_url: self.cover_url@,
            rating: self.rating,
            watched_date: self.watched_date@,
            type_: self.type_@,
            comment: optional_text(self.comment),
            tags: texts(self.tags@),
        }
    }
}

/// The label that stands before the tags of an item.
pub open spec fn tags_label() -> Seq<char> {
    "\u{6807}\u{7b7e}:"@
}

/// The tags in the text of the tags element: the words that follow the
/// label.
pub open spec fn tags_of(text: Option<Seq<char>>) -> Seq<Seq<char>> {
    match text {
        Some(t) => words(strip_prefixes(trim(t), tags_label())),
        None => Seq::empty(),
    }
}

/// The comment in the text of the comment element: the text without the
/// whitespace around it, and none where nothing is left.
pub open spec fn comment_of(text: Option<Seq<char>>) -> Option<Seq<char>> {
    match text {
        Some(t) => if trim(t).len() == 0 {
            None
        } else {
            Some(trim(t))
        },
        None => None,
    }
}

/// The date in the text of the date element, empty where there is none.
pub open spec fn date_of(text: Option<Seq<char>>) -> Seq<char> {
    match text {
        Some(t) => trim(t),
        None => Seq::empty(),
    }
}

/// The record that an item gives. An item gives one only if it has a title
/// link with an address, the address names an identifier (its last piece
/// between slashes that is not empty), and the item has a cover picture
/// with an address.
pub open spec fn movie_of(raw: RawItemView) -> Option<MovieView> {
    match (raw.title, raw.link, raw.cover) {
        (Some(title), Some(link), Some(cover)) => match last_nonempty(split(link, '/')) {
            Some(id) => Some(
                MovieView {
                    title: trim(title),
                    original_title: original_title(trim(title)),
                    douban_id: id,
                    douban_url: link,
                    cover_url: cover,
                    rating: rating_of(raw.rating_class),
                    watched_date: date_of(raw.date),
                    type_: media_type(trim(title), tags_of(raw.tags)),
                    comment: comment_of(raw.comment),
                    tags: tags_of(raw.tags),
                },
            ),
            None => None,
        },
        _ => None,
    }
}

/// The records that a list of items gives: one for each item that gives
/// one, in the order of the items.
pub open spec fn records(items: Seq<RawItemView>) -> Seq<MovieView>
    decreases items.len(),
{
    if items.len() == 0 {
        Seq::empty()
    } else {
        match movie_of(items.last()) {
            Some(m) => records(items.drop_last()).push(m),
            None => records(items.drop_last()),
        }
    }
}

/// The views of a list of items.
pub open spec fn raw_views(items: Seq<RawItem>) -> Seq<RawItemView> {
    Seq::new(items.len(), |i: int| items[i]@)
}

/// The views of a list of records.
pub open spec fn movie_views(movies: Seq<DoubanMovie>) -> Seq<MovieView> {
    Seq::new(movies.len(), |i: int| movies[i]@)
}

/// An item without a title, without an address or without a cover gives no
/// record.
pub proof fn lemma_incomplete_item(raw: RawItemView)
    requires
        raw.title is None || raw.link is None || raw.cover is None,
    ensures
        movie_of(raw) is None,
{
}

/// The records of two lists of items, one after the other, are the records
/// of the first followed by those of the second: no item bears on the
/// record of another.
pub proof fn lemma_records_concat(a: Seq<RawItemView>, b: Seq<RawItemView>)
    ensures
        records(a + b) == records(a) + records(b),
    decreases b.len(),
{
    if b.len() == 0 {
        assert(a + b =~= a);
        assert(records(a) + records(b) =~= records(a));
    } else {
        lemma_records_concat(a, b.drop_last());
        assert((a + b).drop_last() =~= a + b.drop_last());
        assert((a + b).last() == b.last());
        match movie_of(b.last()) {
            Some(m) => {
                assert((records(a) + records(b.drop_last())).push(m) =~= records(a) + records(
                    b.drop_last(),
                ).push(m));
            },
            None => {},
        }
    }
}

/// An item that gives no record leaves the records of the items around it
/// as they are.
pub proof fn lemma_incomplete_item_is_skipped(
    before: Seq<RawItemView>,
    item: RawItemView,
    after: Seq<RawItemView>,
)
    requires
        movie_of(item) is None,
    ensures
        records(before + seq![item] + after) == records(before) + records(after),
{
    lemma_records_concat(before + seq![item], after);
    lemma_records_concat(before, seq![item]);
    assert(seq![item].drop_last() =~= Seq::<RawItemView>::empty());
    assert(seq![item].last() == item);
    assert(records(seq![item].drop_last()) =~= Seq::<MovieView>::empty());
    assert(records(seq![item]) =~= Seq::<MovieView>::empty());
    assert(records(before) + Seq::<MovieView>::empty() =~= records(before));
}

/// Reads the tags out of the text of the tags element.
pub fn extract_tags(text: &str) -> (tags: Vec<String>)
    ensures
        texts(tags@) == tags_of(Some(text@)),
{
    let v = chars_of(text);
    let label = chars_of("\u{6807}\u{7b7e}:");
    let (a, b) = trim_bounds(&v, 0, v.len());
    assert(v@.subrange(0, v@.len() as int) =~= v@);
    let start = skip_prefixes(&v, &label, a, b);
    let bounds = words_bounds(&v, start, b);
    let ghost all = words(v@.subrange(start as int, b as int));
    let mut tags: Vec<String> = Vec::new();
    let mut i: usize = 0;
    while i < bounds.len()
        invariant
            i <= bounds.len(),
            v@ == text@,
            tags@.len() == i,
            bounds@.len() == all.len(),
            forall|k: int| 0 <= k < bounds@.len() ==> (#[trigger] bounds@[k]).0 <= bounds@[k].1 <= v@.len(),
            forall|k: int|
                0 <= k < bounds@.len() ==> v@.subrange(bounds@[k].0 as int, bounds@[k].1 as int)
                    == #[trigger] all[k],
            forall|k: int| 0 <= k < i ==> (#[trigger] tags@[k])@ == all[k],
        decreases bounds.len() - i,
    {
        let bound = bounds[i];
        assert(v@.subrange(bound.0 as int, bound.1 as int) == all[i as int]);
        tags.push(substring(text, bound.0, bound.1));
        i += 1;
    }
    assert(texts(tags@) =~= all);
    tags
}

/// The text without the whitespace around it, where there is a text.
fn trimmed_or_empty(text: &Option<String>) -> (r: String)
    ensures
        r@ == date_of(optional_text(*text)),
{
    match text {
        Some(t) => trimmed(t.as_str()),
        None => String::new(),
    }
}

/// Makes the records of a list of items.
pub fn harvest(items: &Vec<RawItem>) -> (movies: Vec<DoubanMovie>)
    ensures
        movie_views(movies@) == records(raw_views(items@)),
{
    let ghost all = raw_views(items@);
    let mut movies: Vec<DoubanMovie> = Vec::new();
    let mut i: usize = 0;
    assert(all.take(0) =~= Seq::<RawItemView>::empty());
    assert(movie_views(movies@) =~= records(all.take(0)));
    while i < items.len()
        invariant
            i <= items.len(),
            all == raw_views(items@),
            movie_views(movies@) == records(all.take(i as int)),
        decreases items.len() - i,
    {
        let ghost before = movies@;
        assert(all.take(i + 1).drop_last() =~= all.take(i as int));
        assert(all.take(i + 1).last() == items@[i as int]@);
        match DoubanScraper::parse_movie_item(&items[i]) {
            Some(movie) => {
                movies.push(movie);
                assert(movie_views(movies@) =~= movie_views(before).push(movie@));
            },
            None => {},
        }
        i += 1;
    }
    assert(all.take(items@.len() as int) =~= all);
    movies
}

/// The text of the first element below `element` that matches `css`.
pub open spec fn matched_text(element: ElementRef, css: Seq<char>) -> Option<Seq<char>> {
    match first_match(element, css) {
        Some(e) => Some(element_text(e)),
        None => None,
    }
}

/// The attribute `name` of the first element below `element` that matches
/// `css`.
pub open spec fn matched_attribute(element: ElementRef, css: Seq<char>, name: Seq<char>) -> Option<
    Seq<char>,
> {
    match first_match(element, css) {
        Some(e) => element_attribute(e, name),
        None => None,
    }
}

/// What the item `element` of a listing page holds.
pub open spec fn raw_item_of(element: ElementRef) -> RawItemView {
    RawItemView {
        title: matched_text(element, "li.title > a"@),
        link: matched_attribute(element, "li.title > a"@, "href"@),
        cover: matched_attribute(element, "div.pic > a > img"@, "src"@),
        rating_class: matched_attribute(element, "span[class*='rating']"@, "class"@),
        date: matched_text(element, "span.date"@),
        comment: matched_text(element, "span.comment"@),
        tags: matched_text(element, "span.tags"@),
    }
}

/// The items of the listing page `html`, in the order in which the page
/// hands them out.
pub open spec fn listing_items(html: Seq<char>) -> Seq<RawItemView> {
    match document_matches(html_document(html), "div.item"@) {
        Some(elements) => Seq::new(elements.len(), |i: int| raw_item_of(elements[i])),
        None => Seq::empty(),
    }
}

/// The page number that a pagination link shows: the number that its first
/// text spells, whitespace around it aside, and 0 where it has no text or
/// the text is no number.
pub open spec fn page_number(text: Option<Seq<char>>) -> nat {
    match text {
        Some(t) => match parse_decimal(trim(t), u32::MAX as nat) {
            Some(n) => n,
            None => 0,
        },
        None => 0,
    }
}

/// The largest page number among pagination links, 0 where there are none.
pub open spec fn max_page(markers: Seq<Option<Seq<char>>>) -> nat
    decreases markers.len(),
{
    if markers.len() == 0 {
        0
    } else {
        let rest = max_page(markers.drop_last());
        let last = page_number(markers.last());
        if last > rest {
            last
        } else {
            rest
        }
    }
}

/// The total that the counter of a page without pagination shows: in a
/// text of the form `N/total` the number after the slash, whitespace around
/// it aside; the size of one page where there is no counter, the text has
/// not that form, or what follows the slash is no number.
pub open spec fn counter_total(counter: Option<Seq<char>>) -> nat {
    match counter {
        Some(t) => {
            let parts = split(t, '/');
            if parts.len() == 2 {
                match parse_decimal(trim(parts[1]), u32::MAX as nat) {
                    Some(n) => n,
                    None => PAGE_SIZE as nat,
                }
            } else {
                PAGE_SIZE as nat
            }
        },
        None => PAGE_SIZE as nat,
    }
}

/// The estimated number of records of a collection, from the texts of the
/// pagination links of its first page and the text of its counter.
///
/// With pagination it is the largest page number times the size of a page,
/// and the largest 32-bit number where the product is beyond it. Without,
/// it is the total that the counter shows.
pub open spec fn estimated_count(markers: Seq<Option<Seq<char>>>, counter: Option<Seq<char>>) -> nat {
    if max_page(markers) > 0 {
        if max_page(markers) * PAGE_SIZE as nat > u32::MAX {
            u32::MAX as nat
        } else {
            max_page(markers) * PAGE_SIZE as nat
        }
    } else {
        counter_total(counter)
    }
}

/// The texts of the pagination links of the page `document`.
pub open spec fn page_markers(document: Html) -> Seq<Option<Seq<char>>> {
    match document_matches(document, "div.paginator > a"@) {
        Some(elements) => Seq::new(elements.len(), |i: int| element_first_text(elements[i])),
        None => Seq::empty(),
    }
}

/// The text of the counter of the page `document`.
pub open spec fn page_counter(document: Html) -> Option<Seq<char>> {
    match document_matches(document, "span.subject-num"@) {
        Some(elements) => if elements.len() > 0 {
            element_first_text(elements[0])
        } else {
            None
        },
        None => None,
    }
}

/// The views of a list of optional strings.
pub open spec fn optional_texts(v: Seq<Option<String>>) -> Seq<Option<Seq<char>>> {
    Seq::new(v.len(), |i: int| optional_text(v[i]))
}

/// Reads a 32-bit number from a text, whitespace around it aside.
fn parse_count(text: &str) -> (r: Option<u32>)
    ensures
        r matches Some(n) ==> parse_decimal(trim(text@), u32::MAX as nat) == Some(n as nat),
        r is None ==> parse_decimal(trim(text@), u32::MAX as nat) is None,
{
    let v = chars_of(text);
    let (a, b) = trim_bounds(&v, 0, v.len());
    assert(v@.subrange(0, v@.len() as int) =~= v@);
    match parse_decimal_in(&v, a, b, u32::MAX as u64) {
        Some(n) => Some(n as u32),
        None => None,
    }
}

/// Reads the total off the text of the counter.
fn read_counter(counter: &Option<String>) -> (r: u32)
    ensures
        r == counter_total(optional_text(*counter)),
{
    match counter {
        Some(t) => {
            let v = chars_of(t.as_str());
            let parts = split_bounds(&v, '/');
            if parts.len() == 2 {
                let second = parts[1];
                assert(v@.subrange(second.0 as int, second.1 as int) == split(t@, '/')[1]);
                let (a, b) = trim_bounds(&v, second.0, second.1);
                match parse_decimal_in(&v, a, b, u32::MAX as u64) {
                    Some(n) => n as u32,
                    None => PAGE_SIZE,
                }
            } else {
                PAGE_SIZE
            }
        },
        None => PAGE_SIZE,
    }
}

/// Estimates the number of records of a collection from the texts of the
/// pagination links of its first page and the text of its counter.
pub fn estimate_from_markers(markers: &Vec<Option<String>>, counter: &Option<String>) -> (count:
    u32)
    ensures
        count == estimated_count(optional_texts(markers@), optional_text(*counter)),
{
    let ghost all = optional_texts(markers@);
    let mut largest: u32 = 0;
    let mut i: usize = 0;
    assert(all.take(0) =~= Seq::<Option<Seq<char>>>::empty());
    while i < markers.len()
        invariant
            i <= markers.len(),
            all == optional_texts(markers@),
            largest == max_page(all.take(i as int)),
        decreases markers.len() - i,
    {
        assert(all.take(i + 1).drop_last() =~= all.take(i as int));
        assert(all.take(i + 1).last() == optional_text(markers@[i as int]));
        let page = match &markers[i] {
            Some(t) => match parse_count(t.as_str()) {
                Some(n) => n,
                None => 0,
            },
            None => 0,
        };
        if page > largest {
            largest = page;
        }
        i += 1;
    }
    assert(all.take(markers@.len() as int) =~= all);
    if largest > 0 {
        if largest > u32::MAX / PAGE_SIZE {
            u32::MAX
        } else {
            largest * PAGE_SIZE
        }
    } else {
        read_counter(counter)
    }
}

/// The text of the first element below `element` that matches `css`.
fn text_below(element: &ElementRef, css: &str) -> (r: Option<String>)
    ensures
        optional_text(r) == matched_text(*element, css@),
{
    match select_first(element, css) {
        Some(e) => Some(text_of(&e)),
        None => None,
    }
}

/// The attribute `name` of the first element below `element` that matches
/// `css`.
fn attribute_below(element: &ElementRef, css: &str, name: &str) -> (r: Option<String>)
    ensures
        optional_text(r) == matched_attribute(*element, css@, name@),
{
    match select_first(element, css) {
        Some(e) => attribute_of(&e, name),
        None => None,
    }
}

/// Takes out of the page what the item `element` holds.
fn read_item(element: &ElementRef) -> (raw: RawItem)
    ensures
        raw@ == raw_item_of(*element),
{
    RawItem {
        title: text_below(element, "li.title > a"),
        link: attribute_below(element, "li.title > a", "href"),
        cover: attribute_below(element, "div.pic > a > img", "src"),
        rating_class: attribute_below(element, "span[class*='rating']", "class"),
        date: text_below(element, "span.date"),
        comment: text_below(element, "span.comment"),
        tags: text_below(element, "span.tags"),
    }
}

/// Takes the items out of a listing page.
pub fn read_items(html: &str) -> (items: Vec<RawItem>)
    ensures
        raw_views(items@) == listing_items(html@),
{
    let document = parse_document(html);
    let mut items: Vec<RawItem> = Vec::new();
    match select_all(&document, "div.item") {
        Some(elements) => {
            let mut i: usize = 0;
            while i < elements.len()
                invariant
                    i <= elements.len(),
                    items@.len() == i,
                    forall|k: int| 0 <= k < i ==> (#[trigger] items@[k])@ == raw_item_of(elements@[k]),
                decreases elements.len() - i,
            {
                items.push(read_item(&elements[i]));
                i += 1;
            }
            assert(raw_views(items@) =~= listing_items(html@));
        },
        None => {
            assert(raw_views(items@) =~= listing_items(html@));
        },
    }
    items
}

/// Why a page could not be harvested.
#[derive(Clone, Copy, Debug, PartialEq, Eq, Structural)]
pub enum ScrapeError {
    /// The server answered with a status that is no success.
    Status(u16),
}

/// The address of the first page of the collection of `user_id`.
pub open spec fn collection_url(user_id: Seq<char>) -> Seq<char> {
    "https://movie.douban.com/people/"@ + user_id + "/collect"@
}

/// The address of the listing page of the collection of `user_id` that
/// begins at the record `start`, newest first.
pub open spec fn listing_url(user_id: Seq<char>, start: u32) -> Seq<char> {
    "https://movie.douban.com/people/"@ + user_id + "/collect?start="@ + decimal(start as nat)
        + "&sort=time&rating=all&filter=all&mode=grid"@
}

/// The harvester: who it says it is and how long it pauses after a page.
#[derive(Clone, Debug, PartialEq, Eq)]
pub struct DoubanScraper {
    pub user_agent: String,
    /// The pause after each fetched page, in milliseconds.
    pub request_interval_ms: u64,
}

impl DoubanScraper {
    /// A harvester with the pacing and the identity of the configuration.
    pub fn new(config: &ConfigManager) -> (r: Self)
        ensures
            r.user_agent@ == config@.scraper.user_agent,
            r.request_interval_ms == config@.scraper.request_interval_ms,
    {
        let settings = config.get();
        DoubanScraper {
            user_agent: settings.scraper.user_agent,
            request_interval_ms: settings.scraper.request_interval_ms,
        }
    }

    /// The address to fetch for `estimate_movie_count`.
    pub fn estimate_url(user_id: &str) -> (url: String)
        ensures
            url@ == collection_url(user_id@),
    {
        let mut url = String::from_str("https://movie.douban.com/people/");
        url.append(user_id);
        url.append("/collect");
        url
    }

    /// The address to fetch for `fetch_movies`.
    pub fn page_url(user_id: &str, start: u32) -> (url: String)
        ensures
            url@ == listing_url(user_id@, start),
    {
        let mut url = String::from_str("https://movie.douban.com/people/");
        url.append(user_id);
        url.append("/collect?start=");
        push_decimal(&mut url, start as u64);
        url.append("&sort=time&rating=all&filter=all&mode=grid");
        url
    }

    /// Estimates the number of records of a collection from the answer to
    /// the request for its first page: the status code and the page.
    ///
    /// An answer that is no success gives the error with its status. The
    /// estimate is an upper bound to fetch by, not a count.
    pub fn estimate_movie_count(&self, status: u16, html: &str) -> (r: Result<u32, ScrapeError>)
        ensures
            !is_success_status(status) ==> r == Err::<u32, ScrapeError>(ScrapeError::Status(status)),
            is_success_status(status) ==> r == Ok::<u32, ScrapeError>(
                estimated_count(
                    page_markers(html_document(html@)),
                    page_counter(html_document(html@)),
                ) as u32,
            ),
    {
        if !is_success(status) {
            return Err(ScrapeError::Status(status));
        }
        let document = parse_document(html);
        let mut markers: Vec<Option<String>> = Vec::new();
        match select_all(&document, "div.paginator > a") {
            Some(elements) => {
                let mut i: usize = 0;
                while i < elements.len()
                    invariant
                        i <= elements.len(),
                        markers@.len() == i,
                        forall|k: int|
                            0 <= k < i ==> optional_text(#[trigger] markers@[k])
                                == element_first_text(elements@[k]),
                    decreases elements.len() - i,
                {
                    markers.push(first_text_of(&elements[i]));
                    i += 1;
                }
            },
            None => {},
        }
        assert(optional_texts(markers@) =~= page_markers(document));
        let counter = match select_all(&document, "span.subject-num") {
            Some(elements) => if elements.len() > 0 {
                first_text_of(&elements[0])
            } else {
                None
            },
            None => None,
        };
        Ok(estimate_from_markers(&markers, &counter))
    }

    /// Makes the records of one listing page from the answer to the request
    /// for it: the status code and the page.
    ///
    /// An answer that is no success gives the error with its status. A
    /// page without items, or with none that gives a record, gives no
    /// records and no error.
    pub fn fetch_movies(&self, status: u16, html: &str) -> (r: Result<Vec<DoubanMovie>, ScrapeError>)
        ensures
            !is_success_status(status) ==> r == Err::<Vec<DoubanMovie>, ScrapeError>(
                ScrapeError::Status(status),
            ),
            is_success_status(status) ==> (r matches Ok(movies) && movie_views(movies@) == records(
                listing_items(html@),
            )),
    {
        if !is_success(status) {
            return Err(ScrapeError::Status(status));
        }
        Ok(Self::parse_movie_list(html))
    }

    /// Makes the record of an item, where it gives one.
    pub fn parse_movie_item(raw: &RawItem) -> (r: Option<DoubanMovie>)
        ensures
            r matches Some(m) ==> movie_of(raw@) == Some(m@),
            r is None ==> movie_of(raw@) is None,
    {
        let title = match &raw.title {
            Some(t) => trimmed(t.as_str()),
            None => {
                return None;
            },
        };
        let douban_url = match &raw.link {
            Some(link) => link.clone(),
            None => {
                return None;
            },
        };
        let douban_id = match last_nonempty_piece(douban_url.as_str(), '/') {
            Some(id) => id,
            None => {
                return None;
            },
        };
        let cover_url = match &raw.cover {
            Some(cover) => cover.clone(),
            None => {
                return None;
            },
        };
        let rating = Self::extract_rating(
            match &raw.rating_class {
                Some(c) => Some(c.as_str()),
                None => None,
            },
        );
        let watched_date = trimmed_or_empty(&raw.date);
        let comment = match &raw.comment {
            Some(t) => {
                let c = trimmed(t.as_str());
                if c.as_str().unicode_len() == 0 {
                    None
                } else {
                    Some(c)
                }
            },
            None => None,
        };
        let tags = match &raw.tags {
            Some(t) => extract_tags(t.as_str()),
            None => Vec::new(),
        };
        assert(texts(tags@) =~= tags_of(raw@.tags));
        let type_ = Self::determine_media_type(title.as_str(), &tags);
        let original_title = Self::extract_original_title(title.as_str());
        Some(
            DoubanMovie {
                title,
                original_title,
                douban_id,
                douban_url,
                cover_url,
                rating,
                watched_date,
                type_,
                comment,
                tags,
            },
        )
    }

    /// Reads the score off a rating class.
    pub fn extract_rating(class: Option<&str>) -> (r: u8)
        ensures
            r == rating_of(
                match class {
                    Some(c) => Some(c@),
                    None => None,
                },
            ),
    {
        match class {
            Some(c) => {
                if text_contains(c, "rating1-t") {
                    1
                } else if text_contains(c, "rating2-t") {
                    2
                } else if text_contains(c, "rating3-t") {
                    3
                } else if text_contains(c, "rating4-t") {
                    4
                } else if text_contains(c, "rating5-t") {
                    5
                } else {
                    0
                }
            },
            None => 0,
        }
    }

    /// Decides the kind of a work from its title and its tags.
    pub fn determine_media_type(title: &str, tags: &Vec<String>) -> (r: String)
        ensures
            r@ == media_type(title@, texts(tags@)),
    {
        let lowered = to_lowercase(title);
        let season_code = match is_match("s\\d+", lowered.as_str()) {
            Some(found) => found,
            None => false,
        };
        classify_media(title, lowered.as_str(), season_code, tags)
    }

    /// Takes the original title out of a title line.
    pub fn extract_original_title(title: &str) -> (r: String)
        ensures
            r@ == original_title(title@),
    {
        proof {
            reveal_strlit(" / ");
            reveal_strlit("\u{ff08}");
            reveal_strlit("\u{ff09}");
        }
        let v = chars_of(title);
        let separator = chars_of(" / ");
        let open = chars_of("\u{ff08}");
        let close = chars_of("\u{ff09}");
        proof {
            lemma_find_from(v@, separator@, 0);
            lemma_find_from(v@, open@, 0);
        }
        let n = v.len();
        match find_in(&v, &separator, 0) {
            Some(p) => {
                match find_in(&v, &separator, p + 3) {
                    Some(q) => {
                        proof {
                            lemma_find_from(v@, separator@, p + 3);
                        }
                        substring(title, p + 3, q)
                    },
                    None => substring(title, p + 3, n),
                }
            },
            None => match find_in(&v, &open, 0) {
                Some(p) => {
                    match find_in(&v, &close, p) {
                        Some(e) => {
                            proof {
                                lemma_find_from(v@, close@, p as int);
                                assert(v@.subrange(p as int, p + 1)[0] == v@[p as int]);
                                assert(v@.subrange(e as int, e + 1)[0] == v@[e as int]);
                            }
                            substring(title, p + 1, e)
                        },
                        None => substring(title, p + 1, n),
                    }
                },
                None => substring(title, 0, n),
            },
        }
    }

    /// Makes the records of a listing page.
    pub fn parse_movie_list(html: &str) -> (movies: Vec<DoubanMovie>)
        ensures
            movie_views(movies@) == records(listing_items(html@)),
    {
        let items = read_items(html);
        harvest(&items)
    }
}

} // verus!
