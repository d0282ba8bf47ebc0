//! The registry of networks: a fixed set of presets, the networks a user
//! adds, and the one that is current.

use vstd::prelude::*;
use vstd::string::*;
use crate::errors::WalletError;
use crate::json::{
    json_member,
    json_object_text,
    members_view,
    pairs_view,
    read_member,
    read_text,
    text_member,
    text_or_null,
    write_object,
    JsonField,
    JsonFieldView,
    JsonValue,
    JsonValueView,
};
use crate::text::{owned, same_text};

verus! {

/// One network: how it is shown, where its provider listens, what its native
/// asset is called and which chain it is.
#[derive(Debug, Clone)]
pub struct NetworkInfo {
    pub name: String,
    pub url: Option<String>,
    pub native_token: String,
    pub chain_id: u64,
}

/// A network as plain values.
pub struct NetworkInfoView {
    pub name: Seq<char>,
    pub url: Option<Seq<char>>,
    pub native_token: Seq<char>,
    pub chain_id: u64,
}

impl View for NetworkInfo {
    type V = NetworkInfoView;

    open spec fn view(&self) -> NetworkInfoView {
        NetworkInfoView {
            name: self.name@,
            url: match self.url {
                Some(url) => Some(url@),
                None => None,
            },
            native_token: self.native_token@,
            chain_id: self.chain_id,
        }
    }
}

/// Whether some entry stands under a key.
pub open spec fn holds_key(entries: Seq<(Seq<char>, NetworkInfoView)>, key: Seq<char>) -> bool {
    exists|i: int| 0 <= i < entries.len() && (#[trigger] entries[i]).0 == key
}

/// Where an entry stands under a key, if one does.
pub open spec fn index_of(entries: Seq<(Seq<char>, NetworkInfoView)>, key: Seq<char>) -> int {
    choose|i: int| 0 <= i < entries.len() && (#[trigger] entries[i]).0 == key
}

/// Whether some entry has a chain id.
pub open spec fn holds_chain_id(entries: Seq<(Seq<char>, NetworkInfoView)>, chain_id: u64) -> bool {
    exists|i: int| 0 <= i < entries.len() && (#[trigger] entries[i]).1.chain_id == chain_id
}

/// Whether no key stands twice.
pub open spec fn keys_unique(entries: Seq<(Seq<char>, NetworkInfoView)>) -> bool {
    forall|i: int, j: int|
        0 <= i < j < entries.len() ==> (#[trigger] entries[i]).0 != (#[trigger] entries[j]).0
}

/// Whether no chain id stands twice.
pub open spec fn chain_ids_unique(entries: Seq<(Seq<char>, NetworkInfoView)>) -> bool {
    forall|i: int, j: int|
        0 <= i < j < entries.len() ==> (#[trigger] entries[i]).1.chain_id != (
        #[trigger] entries[j]).1.chain_id
}

/// The entries as a map from key to network.
pub open spec fn as_map(entries: Seq<(Seq<char>, NetworkInfoView)>) -> Map<
    Seq<char>,
    NetworkInfoView,
> {
    Map::new(
        |key: Seq<char>| holds_key(entries, key),
        |key: Seq<char>| entries[index_of(entries, key)].1,
    )
}

/// The entries after a network was put under a key: in the place of the
/// entry that stood there, or else at the end.
pub open spec fn with_entry(
    entries: Seq<(Seq<char>, NetworkInfoView)>,
    key: Seq<char>,
    info: NetworkInfoView,
) -> Seq<(Seq<char>, NetworkInfoView)> {
    if holds_key(entries, key) {
        entries.update(index_of(entries, key), (key, info))
    } else {
        entries.push((key, info))
    }
}

/// The entries after the network under a key was given a provider address.
pub open spec fn with_url(
    entries: Seq<(Seq<char>, NetworkInfoView)>,
    key: Seq<char>,
    url: Seq<char>,
) -> Seq<(Seq<char>, NetworkInfoView)> {
    let i = index_of(entries, key);
    entries.update(i, (key, NetworkInfoView { url: Some(url), ..entries[i].1 }))
}

/// The text that a member may hold, or the empty text.
pub open spec fn text_or_empty(text: Option<Seq<char>>) -> Seq<char> {
    match text {
        Some(t) => t,
        None => Seq::empty(),
    }
}

/// The network that a JSON text holds. A member that is missing or of
/// another kind counts as the empty text, as no address, or as zero.
pub open spec fn info_of_json(text: Seq<char>) -> NetworkInfoView {
    NetworkInfoView {
        name: text_or_empty(text_member(text, "name"@)),
        url: text_member(text, "url"@),
        native_token: text_or_empty(text_member(text, "native_token"@)),
        chain_id: match json_member(text, "chain_id"@) {
            JsonFieldView::Number(n) => n,
            _ => 0,
        },
    }
}

/// The entries after stored networks were put under their keys, the first
/// one first.
pub open spec fn with_stored(
    entries: Seq<(Seq<char>, NetworkInfoView)>,
    stored: Seq<(Seq<char>, Seq<char>)>,
) -> Seq<(Seq<char>, NetworkInfoView)>
    decreases stored.len(),
{
    if stored.len() == 0 {
        entries
    } else {
        with_entry(
            with_stored(entries, stored.drop_last()),
            stored.last().0,
            info_of_json(stored.last().1),
        )
    }
}

/// The entries after a stored state was loaded: with the networks that the
/// text holds under `networks`, where that is an object.
pub open spec fn loaded_entries(entries: Seq<(Seq<char>, NetworkInfoView)>, text: Seq<char>) -> Seq<
    (Seq<char>, NetworkInfoView),
> {
    match json_member(text, "networks"@) {
        JsonFieldView::Members(stored) => with_stored(entries, stored),
        _ => entries,
    }
}

/// The current network after a stored state was loaded: the one that the
/// text names under `current_network`, or else the one before.
pub open spec fn loaded_current(current: Option<Seq<char>>, text: Seq<char>) -> Option<Seq<char>> {
    match text_member(text, "current_network"@) {
        Some(key) => Some(key),
        None => current,
    }
}

/// The members of a network's JSON object.
pub open spec fn info_members(info: NetworkInfoView) -> Seq<(Seq<char>, JsonValueView)> {
    seq![
        ("name"@, JsonValueView::Text(info.name)),
        ("url"@, text_or_null(info.url)),
        ("native_token"@, JsonValueView::Text(info.native_token)),
        ("chain_id"@, JsonValueView::Number(info.chain_id)),
    ]
}

/// The members of the JSON object of all networks: each network's object
/// under its key.
pub open spec fn network_members(entries: Seq<(Seq<char>, NetworkInfoView)>) -> Seq<
    (Seq<char>, JsonValueView),
> {
    Seq::new(
        entries.len(),
        |i: int| (entries[i].0, JsonValueView::Raw(json_object_text(info_members(entries[i].1)))),
    )
}

/// The members of the stored state's JSON object.
pub open spec fn state_members(
    entries: Seq<(Seq<char>, NetworkInfoView)>,
    current: Option<Seq<char>>,
) -> Seq<(Seq<char>, JsonValueView)> {
    seq![
        ("current_network"@, text_or_null(current)),
        ("networks"@, JsonValueView::Raw(json_object_text(network_members(entries)))),
    ]
}

/// A preset: a network without a provider address.
pub open spec fn preset(key: Seq<char>, name: Seq<char>, native_token: Seq<char>, chain_id: u64) -> (
    Seq<char>,
    NetworkInfoView,
) {
    (key, NetworkInfoView { name, url: None, native_token, chain_id })
}

/// The networks that every registry starts with, in the order in which
/// they are listed.
pub open spec fn preset_entries() -> Seq<(Seq<char>, NetworkInfoView)> {
    seq![
        preset("ethereum_mainnet"@, "Ethereum Mainnet"@, "ETH"@, 1),
        preset("ethereum_sepolia"@, "Ethereum Sepolia"@, "ETH"@, 11155111),
        preset("polygon_mainnet"@, "Polygon Mainnet"@, "POL"@, 137),
        preset("polygon_amoy"@, "Polygon Amoy"@, "POL"@, 80002),
        preset("optimism_mainnet"@, "Optimism Mainnet"@, "ETH"@, 10),
        preset("optimism_sepolia"@, "Optimism Sepolia"@, "ETH"@, 11155420),
        preset("bsc_mainnet"@, "Binance Smart Chain Mainnet"@, "BNB"@, 56),
        preset("bsc_testnet"@, "Binance Smart Chain Testnet"@, "BNB"@, 97),
        preset("arbitrum_mainnet"@, "Arbitrum Mainnet"@, "ETH"@, 42161),
        preset("arbitrum_sepolia"@, "Arbitrum Sepolia"@, "ETH"@, 421614),
    ]
}

/// What `str::to_lowercase` makes of a text.
pub uninterp spec fn lowercase_of(text: Seq<char>) -> Seq<char>;

/// What `str::trim` leaves of a text.
pub uninterp spec fn trimmed_of(text: Seq<char>) -> Seq<char>;

/// `str::to_lowercase`: the lower-case equivalent of the text, which depends
/// on the text alone.
#[verifier::external_body]
fn lowercase(text: &str) -> (lower: String)
    ensures
        lower@ == lowercase_of(text@),
{
    text.to_lowercase()
}

/// `str::trim`: the text without leading and trailing white space, which
/// depends on the text alone.
#[verifier::external_body]
fn trimmed<'a>(text: &'a str) -> (rest: &'a str)
    ensures
        rest@ == trimmed_of(text@),
{
    text.trim()
}

/// What a switch to a network found about its provider address.
#[derive(Clone, Copy, Debug, PartialEq, Eq, Structural)]
pub enum SwitchOutcome {
    /// The address given with the switch was stored.
    UrlSet,
    /// No address was given; the one stored is used.
    ExistingUrl,
    /// No address was given and none is stored: the network is current, but
    /// needs an address before it can be used.
    UrlRequired,
}

/// What `switch_network` reports for a registry, a key and an address.
pub open spec fn switch_outcome(
    entries: Seq<(Seq<char>, NetworkInfoView)>,
    key: Seq<char>,
    url: Option<Seq<char>>,
) -> SwitchOutcome {
    if url is Some {
        SwitchOutcome::UrlSet
    } else if entries[index_of(entries, key)].1.url is Some {
        SwitchOutcome::ExistingUrl
    } else {
        SwitchOutcome::UrlRequired
    }
}

struct NetworkEntry {
    key: String,
    info: NetworkInfo,
}

fn copy_of_url(url: &Option<String>) -> (r: Option<String>)
    ensures
        r is Some <==> url is Some,
        r is Some ==> r.unwrap()@ == url.unwrap()@,
{
    match url {
        Some(text) => Some(text.clone()),
        None => None,
    }
}

fn copy_of_info(info: &NetworkInfo) -> (r: NetworkInfo)
    ensures
        r@ == info@,
{
    NetworkInfo {
        name: info.name.clone(),
        url: copy_of_url(&info.url),
        native_token: info.native_token.clone(),
        chain_id: info.chain_id,
    }
}

fn preset_entry(key: &str, name: &str, native_token: &str, chain_id: u64) -> (entry: NetworkEntry)
    ensures
        (entry.key@, entry.info@) == preset(key@, name@, native_token@, chain_id),
{
    NetworkEntry {
        key: owned(key),
        info: NetworkInfo { name: owned(name), url: None, native_token: owned(native_token), chain_id },
    }
}

/// The registry: every network under its key, and the key of the current
/// one. No key stands twice.
pub struct NetworkService {
    networks: Vec<NetworkEntry>,
    current_network: Option<String>,
}

impl View for NetworkService {
    type V = Map<Seq<char>, NetworkInfoView>;

    open spec fn view(&self) -> Map<Seq<char>, NetworkInfoView> {
        as_map(self.entries())
    }
}

impl NetworkService {
    /// The networks with their keys, in the order in which they are listed.
    pub closed spec fn entries(&self) -> Seq<(Seq<char>, NetworkInfoView)> {
        Seq::new(self.networks@.len(), |i: int| (self.networks@[i].key@, self.networks@[i].info@))
    }

    /// The key of the current network.
    pub closed spec fn current(&self) -> Option<Seq<char>> {
        match self.current_network {
            Some(key) => Some(key@),
            None => None,
        }
    }

    /// The registry's invariant: no key stands twice.
    pub open spec fn wf(&self) -> bool {
        keys_unique(self.entries())
    }

    /// The registry of the presets, with no current network.
    pub fn new() -> (service: Self)
        ensures
            service.wf(),
            service.entries() == preset_entries(),
            service.current() is None,
            chain_ids_unique(service.entries()),
    {
        let mut networks: Vec<NetworkEntry> = Vec::new();
        networks.push(preset_entry("ethereum_mainnet", "Ethereum Mainnet", "ETH", 1));
        networks.push(preset_entry("ethereum_sepolia", "Ethereum Sepolia", "ETH", 11155111));
        networks.push(preset_entry("polygon_mainnet", "Polygon Mainnet", "POL", 137));
        networks.push(preset_entry("polygon_amoy", "Polygon Amoy", "POL", 80002));
        networks.push(preset_entry("optimism_mainnet", "Optimism Mainnet", "ETH", 10));
        networks.push(preset_entry("optimism_sepolia", "Optimism Sepolia", "ETH", 11155420));
        networks.push(preset_entry("bsc_mainnet", "Binance Smart Chain Mainnet", "BNB", 56));
        networks.push(preset_entry("bsc_testnet", "Binance Smart Chain Testnet", "BNB", 97));
        networks.push(preset_entry("arbitrum_mainnet", "Arbitrum Mainnet", "ETH", 42161));
        networks.push(preset_entry("arbitrum_sepolia", "Arbitrum Sepolia", "ETH", 421614));
        let service = NetworkService { networks, current_network: None };
        proof {
            assert(service.entries() =~= preset_entries());
            lemma_preset_keys_unique();
        }
        service
    }

    fn find(&self, key: &str) -> (r: Option<usize>)
        ensures
            r is Some <==> holds_key(self.entries(), key@),
            r is Some ==> r.unwrap() < self.networks@.len() && self.entries()[r.unwrap() as int].0
                == key@,
    {
        let mut i: usize = 0;
        while i < self.networks.len()
            invariant
                i <= self.networks@.len(),
                forall|j: int| 0 <= j < i ==> (#[trigger] self.entries()[j]).0 != key@,
            decreases self.networks@.len() - i,
        {
            if same_text(self.networks[i].key.as_str(), key) {
                assert(self.entries()[i as int].0 == key@);
                return Some(i);
            }
            i += 1;
        }
        None
    }

    fn has_chain_id(&self, chain_id: u64) -> (r: bool)
        ensures
            r == holds_chain_id(self.entries(), chain_id),
    {
        let mut i: usize = 0;
        while i < self.networks.len()
            invariant
                i <= self.networks@.len(),
                forall|j: int| 0 <= j < i ==> (#[trigger] self.entries()[j]).1.chain_id != chain_id,
            decreases self.networks@.len() - i,
        {
            if self.networks[i].info.chain_id == chain_id {
                assert(self.entries()[i as int].1.chain_id == chain_id);
                return true;
            }
            i += 1;
        }
        false
    }

    /// The network under a key, if the registry holds one.
    pub fn get_network(&self, network_name: &str) -> (r: Option<&NetworkInfo>)
        requires
            self.wf(),
        ensures
            r is Some <==> self@.contains_key(network_name@),
            r is Some ==> r.unwrap()@ == self@[network_name@],
    {
        match self.find(network_name) {
            Some(i) => {
                proof {
                    lemma_index_of(self.entries(), network_name@, i as int);
                }
                Some(&self.networks[i].info)
            },
            None => None,
        }
    }

    /// The key of the current network, if one was chosen.
    pub fn current_network(&self) -> (r: Option<&String>)
        ensures
            r is Some <==> self.current() is Some,
            r is Some ==> Some(r.unwrap()@) == self.current(),
    {
        match &self.current_network {
            Some(key) => Some(key),
            None => None,
        }
    }

    /// The provider address of the current network, if one is current and
    /// has an address.
    pub fn get_provider_url(&self) -> (r: Option<String>)
        requires
            self.wf(),
        ensures
            r is Some <==> self.current() is Some && self@.contains_key(self.current().unwrap())
                && self@[self.current().unwrap()].url is Some,
            r is Some ==> Some(r.unwrap()@) == self@[self.current().unwrap()].url,
    {
        match &self.current_network {
            None => None,
            Some(key) => match self.get_network(key.as_str()) {
                None => None,
                Some(info) => copy_of_url(&info.url),
            },
        }
    }

    /// The native asset's symbol of the current network, if one is current.
    pub fn get_native_token(&self) -> (r: Option<String>)
        requires
            self.wf(),
        ensures
            r is Some <==> self.current() is Some && self@.contains_key(self.current().unwrap()),
            r is Some ==> r.unwrap()@ == self@[self.current().unwrap()].native_token,
    {
        match &self.current_network {
            None => None,
            Some(key) => match self.get_network(key.as_str()) {
                None => None,
                Some(info) => Some(info.native_token.clone()),
            },
        }
    }

    /// Stores a provider address for the network under a key. Fails with
    /// `NotFound`, changing nothing, where the registry holds no such key.
    pub fn set_network_url(&mut self, network_name: &str, url: &str) -> (r: Result<(), WalletError>)
        requires
            old(self).wf(),
        ensures
            final(self).wf(),
            final(self).current() == old(self).current(),
            r is Ok <==> old(self)@.contains_key(network_name@),
            r is Err ==> r == Err::<(), WalletError>(WalletError::NotFound) && final(self).entries()
                == old(self).entries(),
            r is Ok ==> final(self).entries() == with_url(old(self).entries(), network_name@, url@),
    {
        match self.find(network_name) {
            None => Err(WalletError::NotFound),
            Some(i) => {
                proof {
                    lemma_index_of(self.entries(), network_name@, i as int);
                }
                self.networks[i].info.url = Some(owned(url));
                proof {
                    assert(self.entries() =~= with_url(old(self).entries(), network_name@, url@));
                }
                Ok(())
            },
        }
    }

    /// Makes the network under a key the current one, storing the provider
    /// address where one is given, and says what it found about the address.
    /// Fails with `NotFound`, changing nothing, where the registry holds no
    /// such key.
    pub fn switch_network(&mut self, network_name: &str, url: Option<&str>) -> (r: Result<
        SwitchOutcome,
        WalletError,
    >)
        requires
            old(self).wf(),
        ensures
            final(self).wf(),
            r is Ok <==> old(self)@.contains_key(network_name@),
            r is Err ==> r == Err::<SwitchOutcome, WalletError>(WalletError::NotFound) && final(self).entries() == old(self).entries() && final(self).current() == old(self).current(),
            r is Ok ==> final(self).current() == Some(network_name@),
            r is Ok ==> r.unwrap() == switch_outcome(
                old(self).entries(),
                network_name@,
                match url {
                    Some(u) => Some(u@),
                    None => None,
                },
            ),
            r is Ok && url is Some ==> final(self).entries() == with_url(
                old(self).entries(),
                network_name@,
                url.unwrap()@,
            ),
            r is Ok && url is None ==> final(self).entries() == old(self).entries(),
    {
        match self.find(network_name) {
            None => Err(WalletError::NotFound),
            Some(i) => {
                proof {
                    lemma_index_of(self.entries(), network_name@, i as int);
                }
                let outcome = match url {
                    Some(given) => {
                        self.networks[i].info.url = Some(owned(given));
                        proof {
                            assert(self.entries() =~= with_url(
                                old(self).entries(),
                                network_name@,
                                given@,
                            ));
                        }
                        SwitchOutcome::UrlSet
                    },
                    None => {
                        if self.networks[i].info.url.is_some() {
                            SwitchOutcome::ExistingUrl
                        } else {
                            SwitchOutcome::UrlRequired
                        }
                    },
                };
                self.current_network = Some(owned(network_name));
                proof {
                    if url is None {
                        assert(self.entries() =~= old(self).entries());
                    }
                }
                Ok(outcome)
            },
        }
    }

    /// Takes the answer to a prompt for a provider address: stores it,
    /// trimmed, for the network under the key, and says whether it did. An
    /// answer that is empty once trimmed stores nothing.
    pub fn prompt_for_url(&mut self, network_name: &str, answer: &str) -> (r: Result<
        bool,
        WalletError,
    >)
        requires
            old(self).wf(),
        ensures
            final(self).wf(),
            final(self).current() == old(self).current(),
            trimmed_of(answer@).len() == 0 ==> r == Ok::<bool, WalletError>(false) && final(self).entries() == old(self).entries(),
            trimmed_of(answer@).len() != 0 && !old(self)@.contains_key(network_name@) ==> r == Err::<
                bool,
                WalletError,
            >(WalletError::NotFound) && final(self).entries() == old(self).entries(),
            trimmed_of(answer@).len() != 0 && old(self)@.contains_key(network_name@) ==> r == Ok::<
                bool,
                WalletError,
            >(true) && final(self).entries() == with_url(
                old(self).entries(),
                network_name@,
                trimmed_of(answer@),
            ),
    {
        let url = trimmed(answer);
        if url.is_empty() {
            Ok(false)
        } else {
            match self.set_network_url(network_name, url) {
                Ok(()) => Ok(true),
                Err(e) => Err(e),
            }
        }
    }

    fn put(&mut self, key: String, info: NetworkInfo)
        requires
            old(self).wf(),
        ensures
            final(self).wf(),
            final(self).current() == old(self).current(),
            final(self).entries() == with_entry(old(self).entries(), key@, info@),
    {
        let ghost before = self.entries();
        let ghost added = info@;
        match self.find(key.as_str()) {
            Some(i) => {
                proof {
                    lemma_index_of(before, key@, i as int);
                }
                self.networks[i].info = info;
                proof {
                    assert(self.entries() =~= with_entry(before, key@, added));
                }
            },
            None => {
                self.networks.push(NetworkEntry { key, info });
                proof {
                    assert(self.entries() =~= with_entry(before, key@, added));
                }
            },
        }
        proof {
            lemma_with_entry(before, key@, added);
        }
    }

    /// The registry as the JSON text in which it is stored.
    pub fn save_state(&self) -> (text: String)
        ensures
            text@ == json_object_text(state_members(self.entries(), self.current())),
    {
        let mut networks: Vec<(String, JsonValue)> = Vec::new();
        let mut i: usize = 0;
        while i < self.networks.len()
            invariant
                i <= self.networks@.len(),
                self.entries().len() == self.networks@.len(),
                networks@.len() == i,
                forall|j: int|
                    0 <= j < i ==> (#[trigger] members_view(networks@)[j]) == network_members(
                        self.entries(),
                    )[j],
            decreases self.networks@.len() - i,
        {
            let entry = &self.networks[i];
            let mut members: Vec<(String, JsonValue)> = Vec::new();
            members.push((owned("name"), JsonValue::Text(entry.info.name.clone())));
            members.push(
                (
                    owned("url"),
                    match &entry.info.url {
                        Some(url) => JsonValue::Text(url.clone()),
                        None => JsonValue::Null,
                    },
                ),
            );
            members.push((owned("native_token"), JsonValue::Text(entry.info.native_token.clone())));
            members.push((owned("chain_id"), JsonValue::Number(entry.info.chain_id)));
            proof {
                assert(members_view(members@) =~= info_members(self.entries()[i as int].1));
            }
            let object = write_object(&members);
            let ghost before = networks@;
            networks.push((entry.key.clone(), JsonValue::Raw(object)));
            proof {
                assert forall|j: int| 0 <= j < i + 1 implies (#[trigger] members_view(
                    networks@,
                )[j]) == network_members(self.entries())[j] by {
                    if j < i {
                        assert(members_view(before)[j] == network_members(self.entries())[j]);
                    }
                }
            }
            i += 1;
        }
        proof {
            assert(members_view(networks@) =~= network_members(self.entries()));
        }
        let all = write_object(&networks);
        let mut state: Vec<(String, JsonValue)> = Vec::new();
        state.push(
            (
                owned("current_network"),
                match &self.current_network {
                    Some(key) => JsonValue::Text(key.clone()),
                    None => JsonValue::Null,
                },
            ),
        );
        state.push((owned("networks"), JsonValue::Raw(all)));
        proof {
            assert(members_view(state@) =~= state_members(self.entries(), self.current()));
        }
        write_object(&state)
    }

    /// Takes over a stored state: the current network that the text names,
    /// and each network that it holds, in the place of the one under the
    /// same key or else as a new one. A text that is no JSON changes
    /// nothing.
    pub fn load_state(&mut self, text: &str)
        requires
            old(self).wf(),
        ensures
            final(self).wf(),
            final(self).current() == loaded_current(old(self).current(), text@),
            final(self).entries() == loaded_entries(old(self).entries(), text@),
    {
        match read_text(text, "current_network") {
            Some(key) => {
                self.current_network = Some(key);
                proof {
                    assert(self.entries() =~= old(self).entries());
                }
            },
            None => {},
        }
        let stored = match read_member(text, "networks") {
            JsonField::Members(stored) => stored,
            _ => { return ; },
        };
        let ghost start = self.entries();
        let ghost current = self.current();
        let mut i: usize = 0;
        proof {
            assert(pairs_view(stored@).take(0) =~= Seq::<(Seq<char>, Seq<char>)>::empty());
        }
        while i < stored.len()
            invariant
                i <= stored@.len(),
                self.wf(),
                self.current() == current,
                self.entries() == with_stored(start, pairs_view(stored@).take(i as int)),
            decreases stored@.len() - i,
        {
            let raw = stored[i].1.as_str();
            let info = NetworkInfo {
                name: match read_text(raw, "name") {
                    Some(s) => s,
                    None => String::new(),
                },
                url: read_text(raw, "url"),
                native_token: match read_text(raw, "native_token") {
                    Some(s) => s,
                    None => String::new(),
                },
                chain_id: match read_member(raw, "chain_id") {
                    JsonField::Number(n) => n,
                    _ => 0,
                },
            };
            proof {
                let next = pairs_view(stored@).take(i + 1);
                assert(next.drop_last() =~= pairs_view(stored@).take(i as int));
                assert(next.last() == (stored@[i as int].0@, stored@[i as int].1@));
                assert(info@ == info_of_json(stored@[i as int].1@));
            }
            self.put(stored[i].0.clone(), info);
            i += 1;
        }
        proof {
            assert(pairs_view(stored@).take(i as int) =~= pairs_view(stored@));
        }
    }

    /// Every network with its key, in the order in which they are listed.
    pub fn list_networks(&self) -> (list: Vec<(String, NetworkInfo)>)
        ensures
            list@.len() == self.entries().len(),
            forall|i: int|
                0 <= i < list@.len() ==> (#[trigger] list@[i]).0@ == self.entries()[i].0
                    && list@[i].1@ == self.entries()[i].1,
    {
        let mut list: Vec<(String, NetworkInfo)> = Vec::new();
        let mut i: usize = 0;
        while i < self.networks.len()
            invariant
                i <= self.networks@.len(),
                list@.len() == i,
                forall|j: int|
                    0 <= j < i ==> (#[trigger] list@[j]).0@ == self.entries()[j].0 && list@[j].1@
                        == self.entries()[j].1,
            decreases self.networks@.len() - i,
        {
            let entry = &self.networks[i];
            list.push((entry.key.clone(), copy_of_info(&entry.info)));
            i += 1;
        }
        list
    }

    /// Adds a network under its name as key, with that name, a provider
    /// address, a native asset's symbol and a chain id. Refused with
    /// `Duplicate`, changing nothing, where some network has the chain id
    /// already or one stands under the name in lower case.
    pub fn add_network(&mut self, network_name: &str, url: &str, native_token: &str, chain_id: u64) -> (r:
        Result<(), WalletError>)
        requires
            old(self).wf(),
        ensures
            final(self).wf(),
            final(self).current() == old(self).current(),
            r is Err <==> holds_chain_id(old(self).entries(), chain_id) || old(self)@.contains_key(
                lowercase_of(network_name@),
            ),
            r is Err ==> r == Err::<(), WalletError>(WalletError::Duplicate) && final(self).entries()
                == old(self).entries(),
            r is Ok ==> final(self).entries() == with_entry(
                old(self).entries(),
                network_name@,
                NetworkInfoView {
                    name: network_name@,
                    url: Some(url@),
                    native_token: native_token@,
                    chain_id,
                },
            ),
            r is Ok ==> final(self)@ == old(self)@.insert(
                network_name@,
                NetworkInfoView {
                    name: network_name@,
                    url: Some(url@),
                    native_token: native_token@,
                    chain_id,
                },
            ),
            chain_ids_unique(old(self).entries()) ==> chain_ids_unique(final(self).entries()),
    {
        if self.has_chain_id(chain_id) {
            return Err(WalletError::Duplicate);
        }
        let lower = lowercase(network_name);
        if self.find(lower.as_str()).is_some() {
            return Err(WalletError::Duplicate);
        }
        let info = NetworkInfo {
            name: owned(network_name),
            url: Some(owned(url)),
            native_token: owned(native_token),
            chain_id,
        };
        let ghost before = self.entries();
        let ghost added = info@;
        self.put(owned(network_name), info);
        proof {
            lemma_with_entry(before, network_name@, added);
        }
        Ok(())
    }
}

/// The keys of the presets differ from one another, and so do their chain
/// ids.
pub proof fn lemma_preset_keys_unique()
    ensures
        keys_unique(preset_entries()),
        chain_ids_unique(preset_entries()),
{
    reveal_strlit("ethereum_mainnet");
    reveal_strlit("ethereum_sepolia");
    reveal_strlit("polygon_mainnet");
    reveal_strlit("polygon_amoy");
    reveal_strlit("optimism_mainnet");
    reveal_strlit("optimism_sepolia");
    reveal_strlit("bsc_mainnet");
    reveal_strlit("bsc_testnet");
    reveal_strlit("arbitrum_mainnet");
    reveal_strlit("arbitrum_sepolia");
    let e = preset_entries();
    assert(e[0].0[9] != e[1].0[9]);
    assert(e[2].0.len() != e[3].0.len());
    assert(e[4].0[9] != e[5].0[9]);
    assert(e[6].0[4] != e[7].0[4]);
    assert(e[8].0[9] != e[9].0[9]);
    assert(e[0].0[0] == 'e' && e[1].0[0] == 'e');
    assert(e[2].0[0] == 'p' && e[3].0[0] == 'p');
    assert(e[4].0[0] == 'o' && e[5].0[0] == 'o');
    assert(e[6].0[0] == 'b' && e[7].0[0] == 'b');
    assert(e[8].0[0] == 'a' && e[9].0[0] == 'a');
    assert forall|i: int, j: int| 0 <= i < j < e.len() implies (#[trigger] e[i]).0 != (
    #[trigger] e[j]).0 by {
        let a = e[i].0;
        let b = e[j].0;
        assert(a[0] != b[0] || a[9] != b[9] || a[4] != b[4] || a.len() != b.len());
    }
}

/// With no key standing twice, the entry under a key stands where the key
/// is found.
pub proof fn lemma_index_of(entries: Seq<(Seq<char>, NetworkInfoView)>, key: Seq<char>, i: int)
    requires
        keys_unique(entries),
        0 <= i < entries.len(),
        entries[i].0 == key,
    ensures
        holds_key(entries, key),
        index_of(entries, key) == i,
        as_map(entries).contains_key(key),
        as_map(entries)[key] == entries[i].1,
{
    let j = index_of(entries, key);
    if j < i {
        assert(entries[j].0 != entries[i].0);
    } else if i < j {
        assert(entries[i].0 != entries[j].0);
    }
}

/// Putting a network under a key keeps every key single, and the registry
/// it gives is the one before with the key set to that network. Where no
/// network had the chain id before, chain ids that were single stay single.
pub proof fn lemma_with_entry(
    entries: Seq<(Seq<char>, NetworkInfoView)>,
    key: Seq<char>,
    info: NetworkInfoView,
)
    requires
        keys_unique(entries),
    ensures
        keys_unique(with_entry(entries, key, info)),
        as_map(with_entry(entries, key, info)) == as_map(entries).insert(key, info),
        !holds_chain_id(entries, info.chain_id) && chain_ids_unique(entries) ==> chain_ids_unique(
            with_entry(entries, key, info),
        ),
{
    let after = with_entry(entries, key, info);
    let at = if holds_key(entries, key) {
        index_of(entries, key)
    } else {
        entries.len() as int
    };
    assert(0 <= at < after.len() && after[at] == (key, info));
    assert forall|i: int| 0 <= i < after.len() && i != at implies #[trigger] after[i]
        == entries[i] && entries[i].0 != key by {
        if holds_key(entries, key) {
            lemma_index_of(entries, key, at);
            if entries[i].0 == key {
                lemma_index_of(entries, key, i);
            }
        }
    }
    assert(keys_unique(after)) by {
        assert forall|i: int, j: int| 0 <= i < j < after.len() implies (#[trigger] after[i]).0 != (
        #[trigger] after[j]).0 by {
            if i != at && j != at {
                assert(entries[i].0 != entries[j].0);
            }
        }
    }
    lemma_index_of(after, key, at);
    assert forall|k: Seq<char>| #[trigger]
        as_map(after).contains_key(k) == as_map(entries).insert(key, info).contains_key(k) by {
        if k != key {
            if holds_key(entries, k) {
                let i = index_of(entries, k);
                assert(after[i].0 == k);
            }
            if holds_key(after, k) {
                let i = index_of(after, k);
                assert(entries[i].0 == k);
            }
        }
    }
    assert forall|k: Seq<char>| #[trigger]
        as_map(after).contains_key(k) implies as_map(after)[k] == as_map(entries).insert(
        key,
        info,
    )[k] by {
        if k != key {
            let i = index_of(after, k);
            assert(entries[i].0 == k);
            lemma_index_of(entries, k, i);
        }
    }
    assert(as_map(after) =~= as_map(entries).insert(key, info));
    if !holds_chain_id(entries, info.chain_id) && chain_ids_unique(entries) {
        assert forall|i: int, j: int| 0 <= i < j < after.len() implies (#[trigger] after[i]).1.chain_id
            != (#[trigger] after[j]).1.chain_id by {
            if i != at && j != at {
                assert(entries[i].1.chain_id != entries[j].1.chain_id);
            } else if i == at {
                assert(entries[j].1.chain_id != info.chain_id);
            } else {
                assert(entries[i].1.chain_id != info.chain_id);
            }
        }
    }
}

} // verus!
