//! The exchange-connection registry: which exchanges the service is
//! connected to, with their credentials. Market data and order calls
//! go to the exchange collaborator outside; this module owns the
//! in-memory registry.

use vstd::prelude::*;
use crate::errors::ApiError;

verus! {

/// One exchange connection: its name, connection status, credentials
/// and whether it points at a testnet.
#[derive(Debug)]
pub struct ExchangeInfo {
    pub name: String,
    pub status: String,
    pub api_key: Option<String>,
    pub secret_key: Option<String>,
    pub testnet: bool,
}

impl Clone for ExchangeInfo {
    /// An exact copy.
    fn clone(&self) -> (res: Self)
        ensures
            res == *self,
    {
        ExchangeInfo {
            name: self.name.clone(),
            status: self.status.clone(),
            api_key: match &self.api_key {
                Some(k) => Some(k.clone()),
                None => None,
            },
            secret_key: match &self.secret_key {
                Some(k) => Some(k.clone()),
                None => None,
            },
            testnet: self.testnet,
        }
    }
}

/// The registry of connected exchanges, each under a unique name.
pub struct ExchangeService {
    exchanges: Vec<(String, ExchangeInfo)>,
}

impl ExchangeService {
    /// The connections, in connection order, as pairs of registry name
    /// and connection record.
    pub closed spec fn view(&self) -> Seq<(String, ExchangeInfo)> {
        self.exchanges@
    }

    /// Registry names are unique.
    pub open spec fn wf(&self) -> bool {
        forall|i: int, j: int|
            0 <= i < self@.len() && 0 <= j < self@.len() && i != j ==> self@[i].0@ != self@[j].0@
    }

    /// A registry with no connections.
    pub fn new() -> (r: Self)
        ensures
            r@ == Seq::<(String, ExchangeInfo)>::empty(),
            r.wf(),
    {
        ExchangeService { exchanges: Vec::new() }
    }

    /// A registry with no connections; the testnet choice is carried by
    /// each connection, not by the registry.
    pub fn new_with_testnet(_testnet: bool) -> (r: Self)
        ensures
            r@ == Seq::<(String, ExchangeInfo)>::empty(),
            r.wf(),
    {
        ExchangeService::new()
    }

    /// The position of the connection under this name.
    fn find(&self, name: &str) -> (r: Option<usize>)
        ensures
            match r {
                Some(i) => i < self@.len() && self@[i as int].0@ == name@,
                None => forall|i: int| 0 <= i < self@.len() ==> self@[i].0@ != name@,
            },
    {
        let wanted = name.to_owned();
        let mut i: usize = 0;
        while i < self.exchanges.len()
            invariant
                i <= self@.len(),
                wanted@ == name@,
                forall|j: int| 0 <= j < i ==> self@[j].0@ != name@,
            decreases self@.len() - i,
        {
            if self.exchanges[i].0 == wanted {
                return Some(i);
            }
            i = i + 1;
        }
        None
    }

    /// Registers a connection under `name`, replacing any prior
    /// connection under the same name.
    pub fn connect_exchange(&mut self, name: String, info: ExchangeInfo) -> (r: Result<
        (),
        ApiError,
    >)
        requires
            old(self).wf(),
        ensures
            final(self).wf(),
            r is Ok,
            (exists|i: int| 0 <= i < old(self)@.len() && old(self)@[i].0@ == name@) ==> exists|
                i: int,
            |
                0 <= i < old(self)@.len() && old(self)@[i].0@ == name@ && final(self)@ == old(self)@.update(i, (name, info)),
            !(exists|i: int| 0 <= i < old(self)@.len() && old(self)@[i].0@ == name@) ==> final(self)@ == old(self)@.push((name, info)),
    {
        match self.find(name.as_str()) {
            Some(i) => {
                self.exchanges[i] = (name, info);
            },
            None => {
                self.exchanges.push((name, info));
            },
        }
        Ok(())
    }

    /// Drops the connection under `name`; unknown names are ignored.
    pub fn disconnect_exchange(&mut self, name: &str) -> (r: Result<(), ApiError>)
        requires
            old(self).wf(),
        ensures
            final(self).wf(),
            r is Ok,
            forall|i: int| 0 <= i < final(self)@.len() ==> final(self)@[i].0@ != name@,
            (exists|i: int| 0 <= i < old(self)@.len() && old(self)@[i].0@ == name@) ==> exists|
                i: int,
            |
                0 <= i < old(self)@.len() && old(self)@[i].0@ == name@ && final(self)@ == old(self)@.remove(i),
            !(exists|i: int| 0 <= i < old(self)@.len() && old(self)@[i].0@ == name@) ==> final(self)@ == old(self)@,
    {
        let pos = match self.find(name) {
            Some(i) => i,
            None => {
                return Ok(());
            },
        };
        let ghost s0 = self@;
        self.exchanges.remove(pos);
        proof {
            s0.remove_ensures(pos as int);
            assert forall|i: int| 0 <= i < self@.len() implies self@[i].0@ != name@ by {
                let oi: int = if i < pos {
                    i
                } else {
                    i + 1
                };
                assert(self@[i] == s0[oi]);
            }
            assert forall|i: int, j: int|
                0 <= i < self@.len() && 0 <= j < self@.len() && i != j implies self@[i].0@
                != self@[j].0@ by {
                let oi: int = if i < pos {
                    i
                } else {
                    i + 1
                };
                let oj: int = if j < pos {
                    j
                } else {
                    j + 1
                };
                assert(self@[i] == s0[oi]);
                assert(self@[j] == s0[oj]);
            }
        }
        Ok(())
    }

    /// The connected exchanges, in connection order.
    pub fn get_connected_exchanges(&self) -> (r: Vec<&ExchangeInfo>)
        ensures
            r@.len() == self@.len(),
            forall|i: int| 0 <= i < r@.len() ==> *r@[i] == self@[i].1,
    {
        let mut r: Vec<&ExchangeInfo> = Vec::new();
        let mut i: usize = 0;
        while i < self.exchanges.len()
            invariant
                i <= self@.len(),
                r@.len() == i,
                forall|j: int| 0 <= j < i ==> *r@[j] == self@[j].1,
            decreases self@.len() - i,
        {
            r.push(&self.exchanges[i].1);
            i = i + 1;
        }
        r
    }

    /// The exchanges the service knows how to talk to.
    pub fn get_supported_exchanges(&self) -> (r: Vec<String>)
        ensures
            r@.len() == 5,
            r@[0]@ == "binance"@,
            r@[1]@ == "bybit"@,
            r@[2]@ == "bitmart"@,
            r@[3]@ == "coinbase"@,
            r@[4]@ == "kraken"@,
    {
        let mut r: Vec<String> = Vec::new();
        r.push("binance".to_owned());
        r.push("bybit".to_owned());
        r.push("bitmart".to_owned());
        r.push("coinbase".to_owned());
        r.push("kraken".to_owned());
        r
    }
}

} // verus!
