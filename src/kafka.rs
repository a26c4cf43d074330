//! Settings of the message-queue client.
use vstd::prelude::*;

use crate::text::{pair_views, split_on, split_text};

verus! {

/// Where and how to consume messages. `config` holds extra client options
/// as comma-separated `key=value` items.
#[derive(Clone, Debug)]
pub struct KafkaConfig {
    pub topic: String,
    pub group_id: String,
    pub brokers: String,
    pub config: Option<String>,
}

/// Every comma-separated item of `s` has a `=`.
pub open spec fn options_well_formed(s: Seq<char>) -> bool {
    forall|i: int| 0 <= i < split_on(s, ',').len() ==> #[trigger] split_on(split_on(s, ',')[i], '=').len() >= 2
}

/// The option of one `key=value` item: the text before the first `=` and
/// the text between it and the next `=` (or the end).
pub open spec fn option_pair(item: Seq<char>) -> (Seq<char>, Seq<char>) {
    (split_on(item, '=')[0], split_on(item, '=')[1])
}

/// The options of a comma-separated list of `key=value` items, in order.
pub open spec fn option_pairs(s: Seq<char>) -> Seq<(Seq<char>, Seq<char>)> {
    split_on(s, ',').map_values(|item: Seq<char>| option_pair(item))
}

pub open spec fn spec_config(config: Option<String>) -> Seq<(Seq<char>, Seq<char>)> {
    match config {
        None => seq![],
        Some(s) => option_pairs(s@),
    }
}

/// The client settings of a consumer: brokers, group, manual commits, and
/// then the extra options.
pub open spec fn spec_client_settings(c: KafkaConfig) -> Seq<(Seq<char>, Seq<char>)> {
    seq![
        ("bootstrap.servers"@, c.brokers@),
        ("group.id"@, c.group_id@),
        ("enable.auto.commit"@, "false"@),
    ] + spec_config(c.config)
}

impl KafkaConfig {
    /// Whether every extra option is a `key=value` item.
    pub fn has_valid_options(&self) -> (r: bool)
        ensures
            r == (self.config matches Some(s) ==> options_well_formed(s@)),
    {
        match &self.config {
            None => true,
            Some(c) => {
                let items = split_text(c.as_str(), ',');
                let ghost views = items@.map_values(|p: String| p@);
                let mut i: usize = 0;
                while i < items.len()
                    invariant
                        views == items@.map_values(|p: String| p@),
                        views == split_on(c@, ','),
                        i <= items.len(),
                        self.config == Some(*c),
                        forall|j: int| 0 <= j < i ==> #[trigger] split_on(views[j], '=').len() >= 2,
                    decreases items.len() - i,
                {
                    let parts = split_text(items[i].as_str(), '=');
                    proof {
                        assert(views[i as int] == items@[i as int]@);
                    }
                    if parts.len() < 2 {
                        proof {
                            assert(parts@.map_values(|p: String| p@).len() == parts@.len());
                            assert(split_on(split_on(c@, ',')[i as int], '=').len() < 2);
                            assert(!options_well_formed(c@));
                        }
                        return false;
                    }
                    proof {
                        assert(parts@.map_values(|p: String| p@).len() == parts@.len());
                    }
                    i = i + 1;
                }
                proof {
                    assert forall|j: int| 0 <= j < split_on(c@, ',').len() implies #[trigger] split_on(
                        split_on(c@, ',')[j],
                        '=',
                    ).len() >= 2 by {
                        assert(views[j] == split_on(c@, ',')[j]);
                    }
                }
                true
            },
        }
    }

    /// The extra client options, in order.
    pub fn config(&self) -> (r: Vec<(String, String)>)
        requires
            self.config matches Some(s) ==> options_well_formed(s@),
        ensures
            pair_views(r@) == spec_config(self.config),
    {
        let mut out: Vec<(String, String)> = Vec::new();
        match &self.config {
            None => {
                proof {
                    assert(pair_views(out@) =~= Seq::<(Seq<char>, Seq<char>)>::empty());
                }
                out
            },
            Some(c) => {
                let items = split_text(c.as_str(), ',');
                let ghost views = items@.map_values(|p: String| p@);
                let mut i: usize = 0;
                while i < items.len()
                    invariant
                        views == items@.map_values(|p: String| p@),
                        views == split_on(c@, ','),
                        options_well_formed(c@),
                        i <= items.len(),
                        pair_views(out@) == option_pairs(c@).subrange(0, i as int),
                    decreases items.len() - i,
                {
                    let parts = split_text(items[i].as_str(), '=');
                    let ghost item = views[i as int];
                    proof {
                        assert(views[i as int] == items@[i as int]@);
                        assert(parts@.map_values(|p: String| p@) == split_on(item, '='));
                        assert(option_pairs(c@)[i as int] == option_pair(item));
                        assert(split_on(split_on(c@, ',')[i as int], '=').len() >= 2);
                        assert(parts@.map_values(|p: String| p@)[0] == parts@[0]@);
                        assert(parts@.map_values(|p: String| p@)[1] == parts@[1]@);
                    }
                    let k = parts[0].clone();
                    let v = parts[1].clone();
                    let ghost before = out@;
                    proof {
                        assert(k@ == split_on(item, '=')[0]);
                        assert(v@ == split_on(item, '=')[1]);
                    }
                    out.push((k, v));
                    proof {
                        assert(out@ == before.push((k, v)));
                        assert(pair_views(out@) =~= pair_views(before).push(option_pair(item)));
                        assert(pair_views(out@) =~= option_pairs(c@).subrange(0, i + 1));
                    }
                    i = i + 1;
                }
                proof {
                    assert(option_pairs(c@).subrange(0, i as int) =~= option_pairs(c@));
                }
                out
            },
        }
    }

    /// The settings to create a consumer with, in order.
    pub fn client_settings(&self) -> (r: Vec<(String, String)>)
        requires
            self.config matches Some(s) ==> options_well_formed(s@),
        ensures
            pair_views(r@) == spec_client_settings(*self),
    {
        let mut out: Vec<(String, String)> = Vec::new();
        out.push(("bootstrap.servers".to_owned(), self.brokers.clone()));
        out.push(("group.id".to_owned(), self.group_id.clone()));
        out.push(("enable.auto.commit".to_owned(), "false".to_owned()));
        let mut extra = self.config();
        out.append(&mut extra);
        proof {
            assert(pair_views(out@) =~= spec_client_settings(*self));
        }
        out
    }
}

} // verus!
