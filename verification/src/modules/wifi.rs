//! Wi-Fi status bar module.

use crate::block::{block_view, clone_text, text_view, Block, BlockView};
use crate::dbus::{get_object_path, object_path, ManagedObjects};
use vstd::prelude::*;
use vstd::string::*;

verus! {

/// The icon that every visible block of the module starts with.
pub open spec fn icon() -> Seq<char> {
    "\u{f1eb}"@
}

/// The color of the block of a device that is powered but not connected.
pub open spec fn muted() -> Seq<char> {
    "#888888"@
}

/// The name of the interface of a wireless device on the bus.
pub open spec fn device_interface() -> Seq<char> {
    "net.connman.iwd.Device"@
}

/// The name of the property that holds a device's interface name.
pub open spec fn device_name_property() -> Seq<char> {
    "Name"@
}

/// Wi-Fi module config.
#[derive(Debug, Clone)]
pub struct Config {
    /// The name of the interface to watch, for example "wlan0".
    pub interface: String,
}

/// What the module knows of the device.
#[derive(Debug)]
pub enum State {
    /// The device is not powered.
    PoweredOff,
    /// The device is powered and associated with no network.
    Disconnected,
    /// The device is associated with a network whose name is not known.
    Connected,
    /// The device is associated with the network of this name.
    ConnectedTo(String),
}

/// The value of a [`State`].
pub enum StateView {
    PoweredOff,
    Disconnected,
    Connected,
    ConnectedTo(Seq<char>),
}

impl View for State {
    type V = StateView;

    open spec fn view(&self) -> StateView {
        match self {
            State::PoweredOff => StateView::PoweredOff,
            State::Disconnected => StateView::Disconnected,
            State::Connected => StateView::Connected,
            State::ConnectedTo(name) => StateView::ConnectedTo(name@),
        }
    }
}

/// A subscription to the changes of one property of one remote object.
///
/// Every change that a subscription delivers carries the subscription's `id`,
/// so that the module can tell a change of a subscription that it holds from
/// one of a subscription that it has let go of.
#[derive(Debug)]
pub struct Subscription {
    /// Tells this subscription from the one that it replaced.
    pub id: u64,
    /// The path of the object that is watched.
    pub path: String,
}

/// The value of a [`Subscription`].
pub struct SubscriptionView {
    pub id: u64,
    pub path: Seq<char>,
}

impl View for Subscription {
    type V = SubscriptionView;

    open spec fn view(&self) -> SubscriptionView {
        SubscriptionView { id: self.id, path: self.path@ }
    }
}

/// The value of an optional subscription.
pub open spec fn subscription_view(subscription: Option<Subscription>) -> Option<SubscriptionView> {
    match subscription {
        Some(subscription) => Some(subscription@),
        None => None,
    }
}

/// What the holder of the actual subscriptions has to do so that it holds what
/// the module holds.
#[derive(Debug)]
pub enum Action {
    /// Nothing: the subscription held is the one that the module holds, or
    /// neither holds one.
    Keep,
    /// Let go of the subscription held: the module holds none.
    Release,
    /// Let go of the subscription held, if there is one, and make this one.
    Subscribe(Subscription),
}

/// The value of an [`Action`].
pub enum ActionView {
    Keep,
    Release,
    Subscribe(SubscriptionView),
}

impl View for Action {
    type V = ActionView;

    open spec fn view(&self) -> ActionView {
        match self {
            Action::Keep => ActionView::Keep,
            Action::Release => ActionView::Release,
            Action::Subscribe(subscription) => ActionView::Subscribe(subscription@),
        }
    }
}

/// The action that brings the subscription with the id `held`, if any, in line
/// with the subscription `wanted`, if any.
pub open spec fn action_for(wanted: Option<SubscriptionView>, held: Option<u64>) -> ActionView {
    match wanted {
        Some(wanted) => if held == Some(wanted.id) {
            ActionView::Keep
        } else {
            ActionView::Subscribe(wanted)
        },
        None => if held is Some {
            ActionView::Release
        } else {
            ActionView::Keep
        },
    }
}

/// The id of the subscription that is held once an action has been carried
/// out.
pub open spec fn held_after(held: Option<u64>, action: ActionView) -> Option<u64> {
    match action {
        ActionView::Keep => held,
        ActionView::Release => None,
        ActionView::Subscribe(subscription) => Some(subscription.id),
    }
}

/// The id of an optional subscription.
pub open spec fn subscription_id(subscription: Option<SubscriptionView>) -> Option<u64> {
    match subscription {
        Some(subscription) => Some(subscription.id),
        None => None,
    }
}

fn plan(wanted: &Option<Subscription>, held: Option<u64>) -> (action: Action)
    ensures
        action@ == action_for(subscription_view(*wanted), held),
{
    match wanted {
        Some(wanted) => {
            let kept = match held {
                Some(held) => held == wanted.id,
                None => false,
            };
            if kept {
                Action::Keep
            } else {
                Action::Subscribe(Subscription { id: wanted.id, path: wanted.path.clone() })
            }
        },
        None => match held {
            Some(_) => Action::Release,
            None => Action::Keep,
        },
    }
}

/// A change of a property that the module watches. The value is `None` where
/// the property could not be read.
#[derive(Debug)]
pub enum Change {
    /// The device's powered flag.
    Powered(Option<bool>),
    /// The network that the device is associated with, as the subscription with
    /// the given id reports it.
    ConnectedNetwork { subscription: u64, network: Option<String> },
    /// The name of the associated network, as the subscription with the given id
    /// reports it.
    ConnectedNetworkName { subscription: u64, name: Option<String> },
}

/// The value of a [`Change`].
pub enum ChangeView {
    Powered(Option<bool>),
    ConnectedNetwork { subscription: u64, network: Option<Seq<char>> },
    ConnectedNetworkName { subscription: u64, name: Option<Seq<char>> },
}

impl View for Change {
    type V = ChangeView;

    open spec fn view(&self) -> ChangeView {
        match self {
            Change::Powered(powered) => ChangeView::Powered(*powered),
            Change::ConnectedNetwork { subscription, network } => ChangeView::ConnectedNetwork {
                subscription: *subscription,
                network: text_view(*network),
            },
            Change::ConnectedNetworkName { subscription, name } => ChangeView::ConnectedNetworkName {
                subscription: *subscription,
                name: text_view(*name),
            },
        }
    }
}

impl Clone for Change {
    fn clone(&self) -> (res: Change)
        ensures
            res@ == self@,
    {
        match self {
            Change::Powered(powered) => Change::Powered(*powered),
            Change::ConnectedNetwork { subscription, network } => Change::ConnectedNetwork {
                subscription: *subscription,
                network: clone_text(network),
            },
            Change::ConnectedNetworkName { subscription, name } => Change::ConnectedNetworkName {
                subscription: *subscription,
                name: clone_text(name),
            },
        }
    }
}

/// The values of a sequence of changes, in arrival order.
pub open spec fn changes_view(changes: Seq<Change>) -> Seq<ChangeView> {
    changes.map_values(|change: Change| change@)
}

/// The value of a [`Wifi`].
pub struct WifiView {
    /// The path of the device.
    pub device_path: Seq<char>,
    /// The subscription to the device's associated network, where one is held.
    pub connected_network_changes: Option<SubscriptionView>,
    /// The subscription to the associated network's name, where one is held.
    pub connected_network_name_changes: Option<SubscriptionView>,
    /// What is known of the device.
    pub state: StateView,
    /// The id of the latest subscription to the associated network.
    pub network_epoch: u64,
    /// The id of the latest subscription to a network's name.
    pub name_epoch: u64,
}

/// The id that follows `id`.
pub open spec fn next_id(id: u64) -> u64 {
    if id == u64::MAX {
        0
    } else {
        (id + 1) as u64
    }
}

/// The block that shows a state: none while the device is powered off.
pub open spec fn state_block(state: StateView) -> Option<BlockView> {
    match state {
        StateView::PoweredOff => None,
        StateView::Disconnected => Some(
            BlockView { text: icon(), short_text: Some(icon()), color: Some(muted()) },
        ),
        StateView::Connected => Some(
            BlockView { text: icon(), short_text: Some(icon()), color: None },
        ),
        StateView::ConnectedTo(name) => Some(
            BlockView { text: icon() + seq![' '] + name, short_text: Some(icon()), color: None },
        ),
    }
}

impl WifiView {
    /// A module that has seen no change yet: the device counts as powered off,
    /// and only its powered flag is watched.
    pub open spec fn initial(device_path: Seq<char>) -> WifiView {
        WifiView {
            device_path,
            connected_network_changes: None,
            connected_network_name_changes: None,
            state: StateView::PoweredOff,
            network_epoch: 0,
            name_epoch: 0,
        }
    }

    /// The state and the subscriptions fit together: the associated network is
    /// watched exactly while the device is powered, a network's name exactly
    /// while the device is associated, and each subscription held is the latest
    /// of its kind.
    pub open spec fn wf(self) -> bool {
        &&& self.state is PoweredOff <==> self.connected_network_changes is None
        &&& self.state is Connected || self.state is ConnectedTo
            <==> self.connected_network_name_changes is Some
        &&& self.connected_network_changes matches Some(subscription) ==> subscription.id
            == self.network_epoch && subscription.path == self.device_path
        &&& self.connected_network_name_changes matches Some(subscription) ==> subscription.id
            == self.name_epoch
    }

    /// The number of subscriptions held beyond the one to the powered flag.
    pub open spec fn downstream_subscriptions(self) -> nat {
        let network: nat = if self.connected_network_changes is Some {
            1
        } else {
            0
        };
        let name: nat = if self.connected_network_name_changes is Some {
            1
        } else {
            0
        };
        network + name
    }

    /// The module after a change of the powered flag. Powered on, it watches
    /// the device's associated network through a new subscription; powered off,
    /// or where the flag cannot be read, it lets go of every subscription but
    /// the one to the flag.
    pub open spec fn powered_changed(self, powered: Option<bool>) -> WifiView {
        if powered == Some(true) {
            WifiView {
                connected_network_changes: Some(
                    SubscriptionView { id: next_id(self.network_epoch), path: self.device_path },
                ),
                connected_network_name_changes: None,
                state: StateView::Disconnected,
                network_epoch: next_id(self.network_epoch),
                ..self
            }
        } else {
            WifiView {
                connected_network_changes: None,
                connected_network_name_changes: None,
                state: StateView::PoweredOff,
                ..self
            }
        }
    }

    /// The module after a change of the associated network. With a network, it
    /// watches that network's name through a new subscription, which takes the
    /// place of the one held before; without one, or where the network cannot
    /// be read, it lets go of the subscription to the name.
    pub open spec fn connected_network_changed(self, network: Option<Seq<char>>) -> WifiView {
        if network is Some && network->0.len() > 0 {
            WifiView {
                connected_network_name_changes: Some(
                    SubscriptionView { id: next_id(self.name_epoch), path: network->0 },
                ),
                state: StateView::Connected,
                name_epoch: next_id(self.name_epoch),
                ..self
            }
        } else {
            WifiView {
                connected_network_name_changes: None,
                state: StateView::Disconnected,
                ..self
            }
        }
    }

    /// The module after a change of the associated network's name.
    pub open spec fn connected_network_name_changed(self, name: Option<Seq<char>>) -> WifiView {
        WifiView {
            state: match name {
                Some(name) => StateView::ConnectedTo(name),
                None => StateView::Connected,
            },
            ..self
        }
    }

    /// Whether a change comes from a subscription that the module holds. The
    /// subscription to the powered flag is always held.
    pub open spec fn accepts(self, change: ChangeView) -> bool {
        match change {
            ChangeView::Powered(_) => true,
            ChangeView::ConnectedNetwork { subscription, .. } => {
                self.connected_network_changes matches Some(held) && held.id == subscription
            },
            ChangeView::ConnectedNetworkName { subscription, .. } => {
                self.connected_network_name_changes matches Some(held) && held.id == subscription
            },
        }
    }

    /// The module after a change. A change of a subscription that the module
    /// does not hold leaves it as it is.
    pub open spec fn step(self, change: ChangeView) -> WifiView {
        if !self.accepts(change) {
            self
        } else {
            match change {
                ChangeView::Powered(powered) => self.powered_changed(powered),
                ChangeView::ConnectedNetwork { network, .. } => self.connected_network_changed(
                    network,
                ),
                ChangeView::ConnectedNetworkName { name, .. } => {
                    self.connected_network_name_changed(name)
                },
            }
        }
    }

    /// The module after a sequence of changes, in arrival order.
    pub open spec fn step_all(self, changes: Seq<ChangeView>) -> WifiView
        decreases changes.len(),
    {
        if changes.len() == 0 {
            self
        } else {
            self.step_all(changes.drop_last()).step(changes.last())
        }
    }

    /// The blocks that the module's stream yields while a sequence of changes
    /// arrives: the block of the state it starts in, then one block for each
    /// change that it accepts.
    pub open spec fn emissions(self, changes: Seq<ChangeView>) -> Seq<Option<BlockView>>
        decreases changes.len(),
    {
        if changes.len() == 0 {
            seq![state_block(self.state)]
        } else {
            let before = self.step_all(changes.drop_last());
            let earlier = self.emissions(changes.drop_last());
            if before.accepts(changes.last()) {
                earlier.push(state_block(before.step(changes.last()).state))
            } else {
                earlier
            }
        }
    }
}

/// Wi-Fi status bar module.
#[derive(Debug)]
pub struct Wifi {
    device_path: String,
    connected_network_changes: Option<Subscription>,
    connected_network_name_changes: Option<Subscription>,
    state: State,
    network_epoch: u64,
    name_epoch: u64,
}

impl View for Wifi {
    type V = WifiView;

    closed spec fn view(&self) -> WifiView {
        WifiView {
            device_path: self.device_path@,
            connected_network_changes: subscription_view(self.connected_network_changes),
            connected_network_name_changes: subscription_view(self.connected_network_name_changes),
            state: self.state@,
            network_epoch: self.network_epoch,
            name_epoch: self.name_epoch,
        }
    }
}

fn following(id: u64) -> (res: u64)
    ensures
        res == next_id(id),
{
    if id == u64::MAX {
        0
    } else {
        id + 1
    }
}

impl Wifi {
    /// Creates a new instance of [`Wifi`] for the device whose interface name
    /// the config gives, looked up among the objects that the bus reports.
    ///
    /// Returns `None` where no device has that name.
    pub fn new(objects: &ManagedObjects, config: Config) -> (wifi: Option<Wifi>)
        ensures
            match object_path(
                objects.objects@,
                device_interface(),
                device_name_property(),
                config.interface@,
            ) {
                Some(path) => wifi is Some && wifi->0@ == WifiView::initial(path),
                None => wifi is None,
            },
            wifi is Some ==> wifi->0@.wf(),
    {
        match get_object_path(objects, "net.connman.iwd.Device", "Name", config.interface.as_str()) {
            Some(device_path) => Some(
                Wifi {
                    device_path,
                    connected_network_changes: None,
                    connected_network_name_changes: None,
                    state: State::PoweredOff,
                    network_epoch: 0,
                    name_epoch: 0,
                },
            ),
            None => None,
        }
    }

    /// The path of the device.
    pub fn device_path(&self) -> (path: &String)
        ensures
            path@ == self@.device_path,
    {
        &self.device_path
    }

    /// What is known of the device.
    pub fn state(&self) -> (state: &State)
        ensures
            state@ == self@.state,
    {
        &self.state
    }

    /// The subscription to the device's associated network, where one is held.
    pub fn connected_network_changes(&self) -> (subscription: &Option<Subscription>)
        ensures
            subscription_view(*subscription) == self@.connected_network_changes,
    {
        &self.connected_network_changes
    }

    /// The subscription to the associated network's name, where one is held.
    pub fn connected_network_name_changes(&self) -> (subscription: &Option<Subscription>)
        ensures
            subscription_view(*subscription) == self@.connected_network_name_changes,
    {
        &self.connected_network_name_changes
    }

    /// What is to be done about the subscription to the device's associated
    /// network by one who holds the subscription with the id `held`, or none.
    pub fn connected_network_action(&self, held: Option<u64>) -> (action: Action)
        ensures
            action@ == action_for(self@.connected_network_changes, held),
    {
        plan(&self.connected_network_changes, held)
    }

    /// What is to be done about the subscription to the associated network's
    /// name by one who holds the subscription with the id `held`, or none.
    pub fn connected_network_name_action(&self, held: Option<u64>) -> (action: Action)
        ensures
            action@ == action_for(self@.connected_network_name_changes, held),
    {
        plan(&self.connected_network_name_changes, held)
    }

    /// The block that shows the current state.
    pub fn block(&self) -> (block: Option<Block>)
        ensures
            block_view(block) == state_block(self@.state),
    {
        match &self.state {
            State::PoweredOff => None,
            State::Disconnected => Some(
                Block {
                    text: "\u{f1eb}".to_owned(),
                    short_text: Some("\u{f1eb}".to_owned()),
                    color: Some("#888888".to_owned()),
                },
            ),
            State::Connected => Some(
                Block {
                    text: "\u{f1eb}".to_owned(),
                    short_text: Some("\u{f1eb}".to_owned()),
                    color: None,
                },
            ),
            State::ConnectedTo(network_name) => {
                let mut text = "\u{f1eb}".to_owned();
                text.append(" ");
                text.append(network_name.as_str());
                proof {
                    reveal_strlit(" ");
                    assert(" "@ =~= seq![' ']);
                }
                Some(Block { text, short_text: Some("\u{f1eb}".to_owned()), color: None })
            },
        }
    }

    /// Takes a change of the powered flag, which the module always watches.
    fn handle_powered_change(&mut self, change: Option<bool>)
        ensures
            final(self)@ == old(self)@.powered_changed(change),
    {
        let powered = match change {
            Some(powered) => powered,
            None => false,
        };
        if powered {
            let id: u64 = following(self.network_epoch);
            self.network_epoch = id;
            self.connected_network_changes = Some(
                Subscription { id, path: self.device_path.clone() },
            );
            self.connected_network_name_changes = None;
            self.state = State::Disconnected;
        } else {
            self.state = State::PoweredOff;
            self.connected_network_changes = None;
            self.connected_network_name_changes = None;
        }
    }

    /// Takes a change of the associated network from the subscription held.
    fn handle_connected_network_change(&mut self, change: Option<String>)
        ensures
            final(self)@ == old(self)@.connected_network_changed(text_view(change)),
    {
        match change {
            Some(connected_network) if !connected_network.as_str().is_empty() => {
                let id: u64 = following(self.name_epoch);
                self.name_epoch = id;
                self.connected_network_name_changes = Some(
                    Subscription { id, path: connected_network },
                );
                self.state = State::Connected;
            },
            _ => {
                self.state = State::Disconnected;
                self.connected_network_name_changes = None;
            },
        }
    }

    /// Takes a change of the associated network's name from the subscription
    /// held.
    fn handle_connected_network_name_change(&mut self, change: Option<String>)
        ensures
            final(self)@ == old(self)@.connected_network_name_changed(text_view(change)),
    {
        match change {
            Some(connected_network_name) => {
                self.state = State::ConnectedTo(connected_network_name);
            },
            None => {
                self.state = State::Connected;
            },
        }
    }

    /// Tells whether a change comes from a subscription that the module holds.
    pub fn accepts(&self, change: &Change) -> (res: bool)
        ensures
            res == self@.accepts(change@),
    {
        match change {
            Change::Powered(_) => true,
            Change::ConnectedNetwork { subscription, .. } => match &self.connected_network_changes {
                Some(held) => held.id == *subscription,
                None => false,
            },
            Change::ConnectedNetworkName { subscription, .. } => match &self.connected_network_name_changes {
                Some(held) => held.id == *subscription,
                None => false,
            },
        }
    }

    /// Takes the next change. A change of a subscription that the module holds
    /// moves the module on and yields the block of the state reached; any other
    /// change is dropped and yields nothing.
    pub fn wait_for_update(&mut self, change: Change) -> (emitted: Option<Option<Block>>)
        ensures
            final(self)@ == old(self)@.step(change@),
            old(self)@.wf() ==> final(self)@.wf(),
            match emitted {
                Some(block) => old(self)@.accepts(change@) && block_view(block) == state_block(
                    final(self)@.state,
                ),
                None => !old(self)@.accepts(change@),
            },
    {
        if !self.accepts(&change) {
            return None;
        }
        match change {
            Change::Powered(powered) => self.handle_powered_change(powered),
            Change::ConnectedNetwork { network, .. } => self.handle_connected_network_change(
                network,
            ),
            Change::ConnectedNetworkName { name, .. } => self.handle_connected_network_name_change(
                name,
            ),
        }
        Some(self.block())
    }

    /// Runs the module over the changes that arrive, in arrival order, and
    /// returns the blocks of its stream: the block of the state it starts in,
    /// then one block after each change that it accepts.
    pub fn stream(self, changes: &Vec<Change>) -> (blocks: Vec<Option<Block>>)
        ensures
            crate::bar::cache_view(blocks@) == self@.emissions(changes_view(changes@)),
    {
        let ghost start = self@;
        let ghost arrived = changes_view(changes@);
        let mut wifi = self;
        let mut blocks: Vec<Option<Block>> = Vec::new();
        blocks.push(wifi.block());
        assert(arrived.take(0) == Seq::<ChangeView>::empty());
        assert(crate::bar::cache_view(blocks@) =~= start.emissions(arrived.take(0)));
        let mut next: usize = 0;
        while next < changes.len()
            invariant
                next <= changes@.len(),
                arrived == changes_view(changes@),
                wifi@ == start.step_all(arrived.take(next as int)),
                crate::bar::cache_view(blocks@) == start.emissions(arrived.take(next as int)),
            decreases changes@.len() - next,
        {
            let change = changes[next].clone();
            proof {
                assert(arrived.take(next + 1).drop_last() == arrived.take(next as int));
                assert(arrived.take(next + 1).last() == change@);
            }
            let ghost earlier = crate::bar::cache_view(blocks@);
            match wifi.wait_for_update(change) {
                Some(block) => {
                    blocks.push(block);
                    assert(crate::bar::cache_view(blocks@) =~= earlier.push(block_view(block)));
                },
                None => {},
            }
            next += 1;
        }
        assert(arrived.take(next as int) == arrived);
        blocks
    }
}

/// A module that has seen no change is well formed, and every change leaves a
/// well-formed module well formed.
pub proof fn lemma_step_keeps_wf(wifi: WifiView, change: ChangeView)
    ensures
        WifiView::initial(wifi.device_path).wf(),
        wifi.wf() ==> wifi.step(change).wf(),
{
}

/// One who carries out the action for a subscription holds, after that, the
/// subscription that the module holds, and no other.
pub proof fn lemma_action_brings_in_line(wanted: Option<SubscriptionView>, held: Option<u64>)
    ensures
        held_after(held, action_for(wanted, held)) == subscription_id(wanted),
        action_for(wanted, subscription_id(wanted)) is Keep,
{
}

/// The subscriptions of a well-formed module form one chain: a network's name
/// is watched only while the device's associated network is watched.
pub proof fn lemma_subscriptions_form_a_chain(wifi: WifiView)
    requires
        wifi.wf(),
    ensures
        wifi.connected_network_name_changes is Some ==> wifi.connected_network_changes is Some,
        wifi.downstream_subscriptions() <= 2,
        wifi.downstream_subscriptions() == 0 <==> wifi.state is PoweredOff,
{
}

/// A module that is powered off stays as it is under every change but one that
/// reports the device powered, which takes it to the disconnected state.
pub proof fn lemma_powered_off_leaves_on_power_only(wifi: WifiView, change: ChangeView)
    requires
        wifi.wf(),
        wifi.state is PoweredOff,
    ensures
        change == ChangeView::Powered(Some(true)) ==> wifi.step(change).state is Disconnected,
        change != ChangeView::Powered(Some(true)) ==> wifi.step(change) == wifi,
{
}

/// From any state, a change that reports the device not powered takes the
/// module to the powered-off state and lets go of every subscription but the
/// one to the powered flag. An unreadable flag counts as not powered.
pub proof fn lemma_power_loss_releases_subscriptions(wifi: WifiView, powered: Option<bool>)
    requires
        powered != Some(true),
    ensures
        wifi.accepts(ChangeView::Powered(powered)),
        wifi.step(ChangeView::Powered(powered)).state is PoweredOff,
        wifi.step(ChangeView::Powered(powered)).downstream_subscriptions() == 0,
        state_block(wifi.step(ChangeView::Powered(powered)).state) is None,
{
}

/// Once the associated network has changed, a change of the name subscription
/// held before is dropped: it neither moves the module nor yields a block.
pub proof fn lemma_stale_name_change_is_dropped(
    wifi: WifiView,
    network: Option<Seq<char>>,
    stale_name: Option<Seq<char>>,
)
    requires
        wifi.wf(),
        wifi.connected_network_changes is Some,
        wifi.connected_network_name_changes is Some,
    ensures
        ({
            let switch = ChangeView::ConnectedNetwork {
                subscription: wifi.connected_network_changes->0.id,
                network,
            };
            let stale = ChangeView::ConnectedNetworkName {
                subscription: wifi.connected_network_name_changes->0.id,
                name: stale_name,
            };
            &&& wifi.accepts(switch)
            &&& !wifi.step(switch).accepts(stale)
            &&& wifi.step(switch).step(stale) == wifi.step(switch)
        }),
{
}

/// Once the device has lost power or has been powered anew, a change of the
/// subscriptions held before is dropped.
pub proof fn lemma_stale_changes_after_power_change_are_dropped(
    wifi: WifiView,
    powered: Option<bool>,
    stale: ChangeView,
)
    requires
        wifi.wf(),
        wifi.accepts(stale),
        !(stale is Powered),
    ensures
        !wifi.step(ChangeView::Powered(powered)).accepts(stale),
        wifi.step(ChangeView::Powered(powered)).step(stale) == wifi.step(
            ChangeView::Powered(powered),
        ),
{
}

} // verus!
