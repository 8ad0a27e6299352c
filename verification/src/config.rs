//! Process configuration: the gatekeeper's shared secret and the backend
//! identity used for the two upstream calls.

use vstd::prelude::*;

verus! {

/// The configuration a relay process runs with. Loaded once at startup,
/// immutable afterwards.
#[derive(Debug)]
pub struct WecomAppConfig {
    /// Shared secret a caller must present to be authorized.
    pub auth_key: String,
    /// Backend corp id, sent to the token endpoint.
    pub wecom_cid: String,
    /// Backend corp secret, sent to the token endpoint.
    pub wecom_secret: String,
    /// Backend agent id, placed in the outbound envelope.
    pub wecom_aid: String,
    /// Recipient of every relayed message; defaults to the broadcast
    /// sentinel `"@all"` when not configured.
    pub wecom_touid: String,
}

/// Mathematical image of a configuration: each field as a character sequence.
pub struct WecomAppConfigView {
    pub auth_key: Seq<char>,
    pub wecom_cid: Seq<char>,
    pub wecom_secret: Seq<char>,
    pub wecom_aid: Seq<char>,
    pub wecom_touid: Seq<char>,
}

impl View for WecomAppConfig {
    type V = WecomAppConfigView;

    open spec fn view(&self) -> WecomAppConfigView {
        WecomAppConfigView {
            auth_key: self.auth_key@,
            wecom_cid: self.wecom_cid@,
            wecom_secret: self.wecom_secret@,
            wecom_aid: self.wecom_aid@,
            wecom_touid: self.wecom_touid@,
        }
    }
}

impl WecomAppConfig {
    /// Builds the configuration from the raw values found in the process
    /// environment. The first four values are required: if one is missing,
    /// construction fails with a message naming it (in the order below), and
    /// the process must not start serving. The recipient is optional and
    /// falls back to the broadcast sentinel `"@all"`.
    pub fn from_values(
        auth_key: Option<String>,
        wecom_cid: Option<String>,
        wecom_secret: Option<String>,
        wecom_aid: Option<String>,
        wecom_touid: Option<String>,
    ) -> (r: Result<WecomAppConfig, String>)
        ensures
            r is Ok <==> (auth_key is Some && wecom_cid is Some && wecom_secret is Some
                && wecom_aid is Some),
            r matches Ok(c) ==> {
                &&& auth_key matches Some(k) && c.auth_key@ == k@
                &&& wecom_cid matches Some(cid) && c.wecom_cid@ == cid@
                &&& wecom_secret matches Some(sec) && c.wecom_secret@ == sec@
                &&& wecom_aid matches Some(aid) && c.wecom_aid@ == aid@
                &&& wecom_touid matches Some(to) ==> c.wecom_touid@ == to@
                &&& wecom_touid is None ==> c.wecom_touid@ == "@all"@
            },
            auth_key is None ==> (r matches Err(e) && e@ == "AUTH_KEY not found"@),
            auth_key is Some && wecom_cid is None ==> (r matches Err(e)
                && e@ == "WECOM_CID not found"@),
            auth_key is Some && wecom_cid is Some && wecom_secret is None ==> (r matches Err(e)
                && e@ == "WECOM_SECRET not found"@),
            auth_key is Some && wecom_cid is Some && wecom_secret is Some && wecom_aid is None
                ==> (r matches Err(e) && e@ == "WECOM_AID not found"@),
    {
        let auth_key = match auth_key {
            Some(v) => v,
            None => {
                return Err("AUTH_KEY not found".to_owned());
            },
        };
        let wecom_cid = match wecom_cid {
            Some(v) => v,
            None => {
                return Err("WECOM_CID not found".to_owned());
            },
        };
        let wecom_secret = match wecom_secret {
            Some(v) => v,
            None => {
                return Err("WECOM_SECRET not found".to_owned());
            },
        };
        let wecom_aid = match wecom_aid {
            Some(v) => v,
            None => {
                return Err("WECOM_AID not found".to_owned());
            },
        };
        let wecom_touid = match wecom_touid {
            Some(v) => v,
            None => "@all".to_owned(),
        };
        Ok(WecomAppConfig { auth_key, wecom_cid, wecom_secret, wecom_aid, wecom_touid })
    }
}

} // verus!
