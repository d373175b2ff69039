//! GraphQL queries sent to the AniList catalogue.

use vstd::prelude::*;

verus! {

/// The address of the catalogue's GraphQL endpoint.
pub const ANILIST_API: &'static str = "https://graphql.anilist.co";

/// The kinds of catalogue page that the application asks for.
#[derive(Debug, Clone, Copy, PartialEq, Eq, Structural)]
pub enum QueryKind {
    Trending,
    Popular,
    TopRated,
    Seasonal,
    Search,
}

/// The fields requested for every anime.
pub open spec fn media_fields() -> Seq<char> {
    "\n    id\n    title { english romaji native }\n    description(asHtml: false)\n    episodes\n    status\n    season\n    seasonYear\n    averageScore\n    format\n    genres\n    coverImage { large }\n    countryOfOrigin\n"@
}

/// The head of a query for one page of 30 non-adult anime in `sort` order.
pub open spec fn sorted_head(sort: Seq<char>) -> Seq<char> {
    "query { Page(page: 1, perPage: 30) { media(sort: "@ + sort + ", type: ANIME, isAdult: false) { "@
}

/// The query text of each kind of page.
pub open spec fn query_text(kind: QueryKind) -> Seq<char> {
    match kind {
        QueryKind::Trending => sorted_head("TRENDING_DESC"@) + media_fields() + " } } }"@,
        QueryKind::Popular => sorted_head("POPULARITY_DESC"@) + media_fields() + " } } }"@,
        QueryKind::TopRated => sorted_head("SCORE_DESC"@) + media_fields() + " } } }"@,
        QueryKind::Seasonal => "query($season: MediaSeason, $year: Int) {\n                Page(page: 1, perPage: 30) {\n                    media(season: $season, seasonYear: $year, sort: POPULARITY_DESC, type: ANIME, isAdult: false) {\n                        "@
            + media_fields() + "\n                    }\n                }\n            }"@,
        QueryKind::Search => "query($search: String) {\n                Page(page: 1, perPage: 30) {\n                    media(search: $search, type: ANIME, isAdult: false, sort: SEARCH_MATCH) {\n                        "@
            + media_fields() + "\n                    }\n                }\n            }"@,
    }
}

/// Builds the GraphQL query of a kind of catalogue page.
pub fn catalogue_query(kind: QueryKind) -> (q: String)
    ensures
        q@ == query_text(kind),
{
    let fields = "\n    id\n    title { english romaji native }\n    description(asHtml: false)\n    episodes\n    status\n    season\n    seasonYear\n    averageScore\n    format\n    genres\n    coverImage { large }\n    countryOfOrigin\n";
    let tail = "\n                    }\n                }\n            }";
    let q = match kind {
        QueryKind::Trending => String::from_str("query { Page(page: 1, perPage: 30) { media(sort: ")
            .concat("TRENDING_DESC").concat(", type: ANIME, isAdult: false) { ").concat(fields).concat(" } } }"),
        QueryKind::Popular => String::from_str("query { Page(page: 1, perPage: 30) { media(sort: ")
            .concat("POPULARITY_DESC").concat(", type: ANIME, isAdult: false) { ").concat(fields).concat(" } } }"),
        QueryKind::TopRated => String::from_str("query { Page(page: 1, perPage: 30) { media(sort: ")
            .concat("SCORE_DESC").concat(", type: ANIME, isAdult: false) { ").concat(fields).concat(" } } }"),
        QueryKind::Seasonal => String::from_str(
            "query($season: MediaSeason, $year: Int) {\n                Page(page: 1, perPage: 30) {\n                    media(season: $season, seasonYear: $year, sort: POPULARITY_DESC, type: ANIME, isAdult: false) {\n                        ",
        ).concat(fields).concat(tail),
        QueryKind::Search => String::from_str(
            "query($search: String) {\n                Page(page: 1, perPage: 30) {\n                    media(search: $search, type: ANIME, isAdult: false, sort: SEARCH_MATCH) {\n                        ",
        ).concat(fields).concat(tail),
    };
    q
}

/// The line that requests the field `field` in a query's field list.
pub open spec fn field_line(field: Seq<char>) -> Seq<char> {
    "\n    "@ + field + "\n"@
}

/// Whether `query` requests `field`: its field list holds the field's line.
pub open spec fn requests_field(query: Seq<char>, field: Seq<char>) -> bool {
    exists|i: int|
        0 <= i && i + field_line(field).len() <= query.len()
            && #[trigger] query.subrange(i, i + field_line(field).len()) == field_line(field)
}

proof fn lemma_media_field_lines()
    ensures
        media_fields().len() == 209,
        field_line("id"@).len() == 8,
        field_line("title { english romaji native }"@).len() == 37,
        field_line("description(asHtml: false)"@).len() == 32,
        field_line("episodes"@).len() == 14,
        field_line("status"@).len() == 12,
        field_line("season"@).len() == 12,
        field_line("seasonYear"@).len() == 16,
        field_line("averageScore"@).len() == 18,
        field_line("format"@).len() == 12,
        field_line("genres"@).len() == 12,
        field_line("coverImage { large }"@).len() == 26,
        field_line("countryOfOrigin"@).len() == 21,
        media_fields().subrange(0, 8) == field_line("id"@),
        media_fields().subrange(7, 44) == field_line("title { english romaji native }"@),
        media_fields().subrange(43, 75) == field_line("description(asHtml: false)"@),
        media_fields().subrange(74, 88) == field_line("episodes"@),
        media_fields().subrange(87, 99) == field_line("status"@),
        media_fields().subrange(98, 110) == field_line("season"@),
        media_fields().subrange(109, 125) == field_line("seasonYear"@),
        media_fields().subrange(124, 142) == field_line("averageScore"@),
        media_fields().subrange(141, 153) == field_line("format"@),
        media_fields().subrange(152, 164) == field_line("genres"@),
        media_fields().subrange(163, 189) == field_line("coverImage { large }"@),
        media_fields().subrange(188, 209) == field_line("countryOfOrigin"@),
{
    reveal_strlit("\n    id\n    title { english romaji native }\n    description(asHtml: false)\n    episodes\n    status\n    season\n    seasonYear\n    averageScore\n    format\n    genres\n    coverImage { large }\n    countryOfOrigin\n");
    reveal_strlit("\n    ");
    reveal_strlit("\n");
    reveal_strlit("id");
    reveal_strlit("title { english romaji native }");
    reveal_strlit("description(asHtml: false)");
    reveal_strlit("episodes");
    reveal_strlit("status");
    reveal_strlit("season");
    reveal_strlit("seasonYear");
    reveal_strlit("averageScore");
    reveal_strlit("format");
    reveal_strlit("genres");
    reveal_strlit("coverImage { large }");
    reveal_strlit("countryOfOrigin");
    assert(media_fields().subrange(0, 8) =~= field_line("id"@));
    assert(media_fields().subrange(7, 44) =~= field_line("title { english romaji native }"@));
    assert(media_fields().subrange(43, 75) =~= field_line("description(asHtml: false)"@));
    assert(media_fields().subrange(74, 88) =~= field_line("episodes"@));
    assert(media_fields().subrange(87, 99) =~= field_line("status"@));
    assert(media_fields().subrange(98, 110) =~= field_line("season"@));
    assert(media_fields().subrange(109, 125) =~= field_line("seasonYear"@));
    assert(media_fields().subrange(124, 142) =~= field_line("averageScore"@));
    assert(media_fields().subrange(141, 153) =~= field_line("format"@));
    assert(media_fields().subrange(152, 164) =~= field_line("genres"@));
    assert(media_fields().subrange(163, 189) =~= field_line("coverImage { large }"@));
    assert(media_fields().subrange(188, 209) =~= field_line("countryOfOrigin"@));
}

proof fn lemma_line_inside(head: Seq<char>, fields: Seq<char>, tail: Seq<char>, field: Seq<char>, at: int)
    requires
        0 <= at,
        at + field_line(field).len() <= fields.len(),
        fields.subrange(at, at + field_line(field).len()) == field_line(field),
    ensures
        requests_field(head + fields + tail, field),
{
    let q = head + fields + tail;
    let w = head.len() + at;
    assert(q.subrange(w, w + field_line(field).len()) =~= field_line(field));
}

/// Every catalogue query requests each field that a catalogue entry is
/// read from: id, titles, description, episode count, status, season and
/// year, average score, format, genres, cover image and country of origin.
pub proof fn law_queries_request_entry_fields(kind: QueryKind)
    ensures
        requests_field(query_text(kind), "id"@),
        requests_field(query_text(kind), "title { english romaji native }"@),
        requests_field(query_text(kind), "description(asHtml: false)"@),
        requests_field(query_text(kind), "episodes"@),
        requests_field(query_text(kind), "status"@),
        requests_field(query_text(kind), "season"@),
        requests_field(query_text(kind), "seasonYear"@),
        requests_field(query_text(kind), "averageScore"@),
        requests_field(query_text(kind), "format"@),
        requests_field(query_text(kind), "genres"@),
        requests_field(query_text(kind), "coverImage { large }"@),
        requests_field(query_text(kind), "countryOfOrigin"@),
{
    let head: Seq<char> = match kind {
        QueryKind::Trending => sorted_head("TRENDING_DESC"@),
        QueryKind::Popular => sorted_head("POPULARITY_DESC"@),
        QueryKind::TopRated => sorted_head("SCORE_DESC"@),
        QueryKind::Seasonal => "query($season: MediaSeason, $year: Int) {\n                Page(page: 1, perPage: 30) {\n                    media(season: $season, seasonYear: $year, sort: POPULARITY_DESC, type: ANIME, isAdult: false) {\n                        "@,
        QueryKind::Search => "query($search: String) {\n                Page(page: 1, perPage: 30) {\n                    media(search: $search, type: ANIME, isAdult: false, sort: SEARCH_MATCH) {\n                        "@,
    };
    let tail: Seq<char> = match kind {
        QueryKind::Trending | QueryKind::Popular | QueryKind::TopRated => " } } }"@,
        _ => "\n                    }\n                }\n            }"@,
    };
    assert(query_text(kind) == head + media_fields() + tail);
    lemma_media_field_lines();
    lemma_line_inside(head, media_fields(), tail, "id"@, 0);
    lemma_line_inside(head, media_fields(), tail, "title { english romaji native }"@, 7);
    lemma_line_inside(head, media_fields(), tail, "description(asHtml: false)"@, 43);
    lemma_line_inside(head, media_fields(), tail, "episodes"@, 74);
    lemma_line_inside(head, media_fields(), tail, "status"@, 87);
    lemma_line_inside(head, media_fields(), tail, "season"@, 98);
    lemma_line_inside(head, media_fields(), tail, "seasonYear"@, 109);
    lemma_line_inside(head, media_fields(), tail, "averageScore"@, 124);
    lemma_line_inside(head, media_fields(), tail, "format"@, 141);
    lemma_line_inside(head, media_fields(), tail, "genres"@, 152);
    lemma_line_inside(head, media_fields(), tail, "coverImage { large }"@, 163);
    lemma_line_inside(head, media_fields(), tail, "countryOfOrigin"@, 188);
}

} // verus!
