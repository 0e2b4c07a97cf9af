use crate::{
    check_success, decode_each, lemma_decode_each_err_stays, lemma_decode_each_step, viewed, Code,
    CodeView, RoliError,
};
use vstd::prelude::*;

verus! {

/// A group found by the group search.
#[derive(Clone, Debug, PartialEq, Eq, PartialOrd, Ord, Hash, Default)]
pub struct GroupSearchResult {
    /// The id of the group.
    pub id: u64,
    /// The name of the group.
    pub name: String,
    /// How many members the group has.
    pub member_count: u64,
    /// Where the group's thumbnail is.
    pub thumbnail_url: String,
}

/// The mathematical content of a [`GroupSearchResult`].
pub struct GroupSearchResultView {
    pub id: u64,
    pub name: Seq<char>,
    pub member_count: u64,
    pub thumbnail_url: Seq<char>,
}

impl View for GroupSearchResult {
    type V = GroupSearchResultView;

    open spec fn view(&self) -> GroupSearchResultView {
        GroupSearchResultView {
            id: self.id,
            name: self.name@,
            member_count: self.member_count,
            thumbnail_url: self.thumbnail_url@,
        }
    }
}

impl DeepView for GroupSearchResult {
    type V = GroupSearchResultView;

    open spec fn deep_view(&self) -> GroupSearchResultView {
        self@
    }
}

impl GroupSearchResult {
    /// What a seven-slot array `[id, name, unknown, unknown, unknown, member
    /// count, thumbnail]` decodes to. The three unknown slots must be there
    /// and are not read. Any other length, and an id or member count that is
    /// not an integer, is malformed.
    pub open spec fn decode(codes: Seq<CodeView>) -> Result<GroupSearchResultView, RoliError> {
        if codes.len() != 7 {
            Err(RoliError::MalformedResponse)
        } else {
            match (codes[0].as_u64(), codes[5].as_u64()) {
                (Ok(id), Ok(member_count)) => Ok(
                    GroupSearchResultView {
                        id,
                        name: codes[1].text(),
                        member_count,
                        thumbnail_url: codes[6].text(),
                    },
                ),
                _ => Err(RoliError::MalformedResponse),
            }
        }
    }

    /// The decoder as a value, for decoding a whole result list.
    pub open spec fn decoder() -> spec_fn(Seq<CodeView>) -> Result<
        GroupSearchResultView,
        RoliError,
    > {
        |codes: Seq<CodeView>| GroupSearchResult::decode(codes)
    }

    /// Decodes one search result.
    pub fn from_raw(codes: Vec<Code>) -> (r: Result<Self, RoliError>)
        ensures
            viewed(r) == GroupSearchResult::decode(codes.deep_view()),
    {
        if codes.len() != 7 {
            return Err(RoliError::MalformedResponse);
        }
        assert(forall|i: int| 0 <= i < 7 ==> codes.deep_view()[i] == (#[trigger] codes@[i])@);
        let id = codes[0].to_u64()?;
        let name = codes[1].to_string();
        let member_count = codes[5].to_u64()?;
        let thumbnail_url = codes[6].to_string();
        Ok(GroupSearchResult { id, name, member_count, thumbnail_url })
    }
}

/// The envelope of a group search, as the JSON parser leaves it.
pub struct GroupSearchResponse {
    /// The envelope's own verdict on the request.
    pub success: bool,
    /// How many groups the envelope says it holds.
    pub result_count: i64,
    /// The results, one positional array for each group.
    pub groups: Vec<Vec<Code>>,
}

impl GroupSearchResponse {
    /// What an envelope decodes to: nothing but the refusal when it reports
    /// failure, else its groups decoded in order, all or none.
    pub open spec fn decode(success: bool, groups: Seq<Seq<CodeView>>) -> Result<
        Seq<GroupSearchResultView>,
        RoliError,
    > {
        if !success {
            Err(RoliError::RequestReturnedUnsuccessful)
        } else {
            decode_each(groups, GroupSearchResult::decoder())
        }
    }

    /// Decodes the whole result list.
    pub fn into_vec(self) -> (r: Result<Vec<GroupSearchResult>, RoliError>)
        ensures
            viewed(r) == Self::decode(self.success, self.groups.deep_view()),
    {
        check_success(self.success)?;
        let ghost raws = self.groups.deep_view();
        let mut search_outputs: Vec<GroupSearchResult> = Vec::new();
        assert(raws.take(0) =~= Seq::empty());
        assert(search_outputs.deep_view() =~= Seq::empty());
        for raw in it: self.groups
            invariant
                self.success,
                raws == self.groups.deep_view(),
                it.seq() == self.groups@,
                decode_each(raws.take(it.index()), GroupSearchResult::decoder()) == Ok::<
                    Seq<GroupSearchResultView>,
                    RoliError,
                >(search_outputs.deep_view()),
        {
            let ghost n = it.index();
            let ghost done = search_outputs.deep_view();
            proof {
                lemma_decode_each_step(raws, GroupSearchResult::decoder(), n);
            }
            assert(raw.deep_view() == raws[n]);
            match GroupSearchResult::from_raw(raw) {
                Err(e) => {
                    proof {
                        lemma_decode_each_err_stays(raws, GroupSearchResult::decoder(), n + 1);
                    }
                    return Err(e);
                },
                Ok(group) => {
                    search_outputs.push(group);
                    assert(search_outputs.deep_view() =~= done.push(group@));
                },
            }
        }
        assert(raws.take(raws.len() as int) =~= raws);
        Ok(search_outputs)
    }
}

} // verus!
