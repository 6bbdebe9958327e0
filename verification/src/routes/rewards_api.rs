use vstd::prelude::*;
use crate::models::Reward;
use crate::text::{concat_all, lemma_concat_all_take_next, list_item};

verus! {

/// The list items of the rewards page: each reward's description.
pub open spec fn reward_items(rewards: Seq<Reward>) -> Seq<Seq<char>> {
    rewards.map_values(|r: Reward| list_item(r.description@))
}

/// The rewards page has one item per reward, in order, each the reward's
/// description between `<li>` and `</li>`.
pub proof fn lemma_reward_items_one_per_reward(rewards: Seq<Reward>)
    ensures
        reward_items(rewards).len() == rewards.len(),
        forall|i: int| 0 <= i < rewards.len() ==> #[trigger] reward_items(rewards)[i]
            == "<li>"@ + rewards[i].description@ + "</li>"@,
{
}

/// The page for one more reward is the page for the others followed by the
/// new reward's item; the page for no reward is empty.
pub proof fn lemma_rewards_page_grows_by_item(rewards: Seq<Reward>, r: Reward)
    ensures
        concat_all(reward_items(Seq::<Reward>::empty())) == Seq::<char>::empty(),
        concat_all(reward_items(rewards.push(r)))
            == concat_all(reward_items(rewards)) + ("<li>"@ + r.description@ + "</li>"@),
{
    assert(reward_items(Seq::<Reward>::empty()) =~= Seq::<Seq<char>>::empty());
    let items = reward_items(rewards.push(r));
    assert(items.drop_last() =~= reward_items(rewards));
    assert(items.last() == list_item(r.description@));
}

/// The rewards page: one list item per reward, holding its description.
pub fn rewards_html(rewards: &Vec<Reward>) -> (html: String)
    ensures
        html@ == concat_all(reward_items(rewards@)),
{
    let ghost items = reward_items(rewards@);
    let mut html = String::new();
    for i in 0..rewards.len()
        invariant
            items == reward_items(rewards@),
            html@ == concat_all(items.take(i as int)),
    {
        proof {
            lemma_concat_all_take_next(items, i as int);
        }
        html.append("<li>");
        html.append(rewards[i].description.as_str());
        html.append("</li>");
        assert(html@ =~= concat_all(items.take(i as int)) + items[i as int]);
    }
    assert(items.take(rewards@.len() as int) =~= items);
    html
}

} // verus!
