//! Message identity and topics.
//!
//! A `Topic` names a logical channel. Topics support a restricted
//! wildcard match: a pattern of `*` alone matches every topic, and a
//! pattern with exactly one `*` inside it splits into a required
//! prefix and suffix. Any other pattern matches only itself.

use vstd::prelude::*;

use crate::time::Time;

verus! {

/// Unique identifier for messages, generated randomly at construction.
#[derive(Debug, Clone, Copy, PartialEq, Eq, Hash, Structural)]
pub struct MessageId(pub u128);

impl MessageId {
    /// Create a new random message ID.
    pub fn new() -> Self {
        MessageId(crate::ids::random_uuid_value())
    }
}

/// Base message structure providing the fields every message carries:
/// identity, creation timestamp, source node name, and topic.
#[derive(Debug)]
pub struct BaseMessage {
    pub id: MessageId,
    pub timestamp: Time,
    pub source: String,
    pub topic: String,
}

impl Clone for BaseMessage {
    fn clone(&self) -> (res: Self)
        ensures
            res == *self,
    {
        BaseMessage {
            id: self.id,
            timestamp: self.timestamp,
            source: self.source.clone(),
            topic: self.topic.clone(),
        }
    }
}

impl BaseMessage {
    /// Create a new base message with a fresh random id, stamped with
    /// the current time.
    pub fn new(source: String, topic: String) -> (r: Self)
        ensures
            r.source == source,
            r.topic == topic,
            r.timestamp.normalized(),
    {
        BaseMessage { id: MessageId::new(), timestamp: Time::now(), source, topic }
    }
}

/// Coarse system health, as reported by monitoring nodes.
#[derive(Debug, Clone, Copy, PartialEq, Eq, Structural)]
pub enum SystemStatus {
    Healthy,
    Warning,
    Error,
    Critical,
    Unknown,
}

/// Topic name identifying a logical channel.
#[derive(Debug, PartialEq, Eq, Hash)]
pub struct Topic(pub String);

impl Clone for Topic {
    fn clone(&self) -> (res: Self)
        ensures
            res == *self,
    {
        Topic(self.0.clone())
    }
}

impl View for Topic {
    type V = Seq<char>;

    open spec fn view(&self) -> Seq<char> {
        self.0@
    }
}

/// The pattern holds a `*` at position `i` and nowhere else.
pub open spec fn lone_star_at(pattern: Seq<char>, i: int) -> bool {
    &&& 0 <= i < pattern.len()
    &&& pattern[i] == '*'
    &&& forall|j: int| 0 <= j < pattern.len() && j != i ==> pattern[j] != '*'
}

/// The pattern holds exactly one `*`.
pub open spec fn has_lone_star(pattern: Seq<char>) -> bool {
    exists|i: int| lone_star_at(pattern, i)
}

/// The topic begins with the pattern's part before its lone `*` and
/// ends with the part after it.
pub open spec fn star_split_matches(topic: Seq<char>, pattern: Seq<char>) -> bool {
    let i = choose|i: int| lone_star_at(pattern, i);
    let suffix_len = pattern.len() - i - 1;
    &&& topic.len() >= i
    &&& topic.len() >= suffix_len
    &&& topic.subrange(0, i) == pattern.subrange(0, i)
    &&& topic.subrange(topic.len() - suffix_len, topic.len() as int) == pattern.subrange(
        i + 1,
        pattern.len() as int,
    )
}

/// Whether a topic matches a pattern: `*` alone matches everything, a
/// pattern with exactly one `*` splits into required prefix and
/// suffix, and any other pattern matches only itself.
pub open spec fn spec_topic_matches(topic: Seq<char>, pattern: Seq<char>) -> bool {
    if pattern == seq!['*'] {
        true
    } else if has_lone_star(pattern) {
        star_split_matches(topic, pattern)
    } else {
        topic == pattern
    }
}

/// Compare two string slices character by character.
pub fn str_eq(a: &str, b: &str) -> (r: bool)
    ensures
        r == (a@ == b@),
{
    let alen = a.unicode_len();
    let blen = b.unicode_len();
    if alen != blen {
        return false;
    }
    let mut i: usize = 0;
    while i < alen
        invariant
            alen == a@.len(),
            alen == b@.len(),
            i <= alen,
            forall|j: int| 0 <= j < i ==> a@[j] == b@[j],
        decreases alen - i,
    {
        if a.get_char(i) != b.get_char(i) {
            return false;
        }
        i += 1;
    }
    proof {
        assert(a@ =~= b@);
    }
    true
}

/// Collect the characters of a string slice into a vector.
fn chars_of(s: &str) -> (v: Vec<char>)
    ensures
        v@ == s@,
{
    let len = s.unicode_len();
    let mut v: Vec<char> = Vec::new();
    let mut i: usize = 0;
    while i < len
        invariant
            len == s@.len(),
            i <= len,
            v@ == s@.subrange(0, i as int),
        decreases len - i,
    {
        v.push(s.get_char(i));
        i += 1;
        proof {
            assert(v@ =~= s@.subrange(0, i as int));
        }
    }
    proof {
        assert(v@ =~= s@);
    }
    v
}

/// Compare `count` characters of `t` starting at `start` against
/// `count` characters of `p` starting at `pstart`.
fn range_eq(t: &Vec<char>, start: usize, p: &Vec<char>, pstart: usize, count: usize) -> (r: bool)
    requires
        start + count <= t@.len(),
        pstart + count <= p@.len(),
    ensures
        r == (t@.subrange(start as int, (start + count) as int) == p@.subrange(
            pstart as int,
            (pstart + count) as int,
        )),
{
    let tlen = t.len();
    let plen = p.len();
    let mut k: usize = 0;
    while k < count
        invariant
            start + count <= tlen == t@.len(),
            pstart + count <= plen == p@.len(),
            k <= count,
            forall|j: int| 0 <= j < k ==> t@[start + j] == #[trigger] p@[pstart + j],
        decreases count - k,
    {
        if t[start + k] != p[pstart + k] {
            proof {
                assert(t@.subrange(start as int, (start + count) as int)[k as int] != p@.subrange(
                    pstart as int,
                    (pstart + count) as int,
                )[k as int]);
            }
            return false;
        }
        k += 1;
    }
    proof {
        assert forall|m: int| 0 <= m < count implies #[trigger] t@.subrange(
            start as int,
            (start + count) as int,
        )[m] == p@.subrange(pstart as int, (pstart + count) as int)[m] by {
            assert(t@[start + m] == p@[pstart + m]);
        }
        assert(t@.subrange(start as int, (start + count) as int) =~= p@.subrange(
            pstart as int,
            (pstart + count) as int,
        ));
    }
    true
}

impl Topic {
    /// Create a new topic.
    pub fn new(name: &str) -> (r: Self)
        ensures
            r@ == name@,
    {
        Topic(name.to_owned())
    }

    /// Check if this topic matches a pattern (supports the restricted
    /// `*` wildcard).
    pub fn matches(&self, pattern: &str) -> (r: bool)
        ensures
            r == spec_topic_matches(self@, pattern@),
    {
        let p = chars_of(pattern);
        let t = chars_of(self.0.as_str());

        // Locate the stars in the pattern: the first one, and whether
        // there is more than one.
        let mut i: usize = 0;
        let mut first: usize = 0;
        let mut found = false;
        let mut multi = false;
        while i < p.len()
            invariant
                p@ == pattern@,
                i <= p@.len(),
                !found ==> !multi && (forall|j: int| 0 <= j < i ==> p@[j] != '*'),
                found ==> first < i && p@[first as int] == '*',
                found && !multi ==> (forall|j: int|
                    0 <= j < i && j != first ==> p@[j] != '*'),
                multi ==> found && (exists|a: int, b: int|
                    0 <= a < b < i && p@[a] == '*' && p@[b] == '*'),
            decreases p@.len() - i,
        {
            if p[i] == '*' {
                if found {
                    proof {
                        assert(0 <= first < i && p@[first as int] == '*' && p@[i as int] == '*');
                    }
                    multi = true;
                } else {
                    found = true;
                    first = i;
                }
            }
            i += 1;
        }

        if p.len() == 1 && found {
            // The pattern is exactly "*": everything matches.
            proof {
                assert(pattern@ =~= seq!['*']);
            }
            return true;
        }

        if found && !multi {
            // Exactly one star, in a pattern longer than the star
            // itself: split into prefix and suffix.
            proof {
                assert(pattern@.len() != seq!['*'].len() || pattern@.len() != 1);
                assert(pattern@ != seq!['*']);
                assert(lone_star_at(pattern@, first as int));
                let ci = choose|i: int| lone_star_at(pattern@, i);
                if ci != first as int {
                    assert(pattern@[ci] != '*');
                }
                assert(ci == first as int);
            }
            let slen = p.len() - first - 1;
            if t.len() < first || t.len() < slen {
                return false;
            }
            let prefix_ok = range_eq(&t, 0, &p, 0, first);
            let suffix_ok = range_eq(&t, t.len() - slen, &p, first + 1, slen);
            return prefix_ok && suffix_ok;
        }

        // No star, or several stars: the pattern only matches itself.
        proof {
            if !found {
                if pattern@ == seq!['*'] {
                    assert(pattern@[0] == '*');
                }
                assert(pattern@ != seq!['*']);
                assert forall|ix: int| !lone_star_at(pattern@, ix) by {
                    if 0 <= ix < pattern@.len() {
                        assert(pattern@[ix] != '*');
                    }
                }
            } else {
                let (a, b) = choose|a: int, b: int|
                    0 <= a < b < p@.len() && p@[a] == '*' && p@[b] == '*';
                assert(pattern@.len() >= 2);
                assert(pattern@ != seq!['*']);
                assert forall|ix: int| !lone_star_at(pattern@, ix) by {
                    if lone_star_at(pattern@, ix) {
                        if ix != a {
                            assert(pattern@[a] != '*');
                        } else {
                            assert(pattern@[b] != '*');
                        }
                    }
                }
            }
            assert(!has_lone_star(pattern@));
        }
        if t.len() != p.len() {
            proof {
                assert(self@.len() != pattern@.len());
            }
            return false;
        }
        let r = range_eq(&t, 0, &p, 0, p.len());
        proof {
            assert(t@.subrange(0, p@.len() as int) =~= t@);
            assert(p@.subrange(0, p@.len() as int) =~= p@);
        }
        r
    }
}

} // verus!
