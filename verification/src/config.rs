//! The configuration that the service needs before it takes any traffic,
//! checked once at startup.

use crate::store::Tables;
use crate::text::opt_text;
use vstd::prelude::*;
use vstd::string::*;

verus! {

/// A required setting that is missing.
#[derive(Debug, PartialEq, Eq, Structural, Clone, Copy)]
pub enum ConfigError {
    MissingRoomsTable,
    MissingMessagesTable,
    MissingConnectionsTable,
    MissingApiId,
    MissingStage,
    MissingRegion,
}

/// What the broadcast dispatcher needs to know of its surroundings.
#[derive(Debug)]
pub struct BroadcastConfig {
    pub connections_table: String,
    pub ws_api_id: String,
    pub ws_stage: String,
    pub aws_region: String,
}

/// A dispatcher configuration as a mathematical value.
pub struct BroadcastConfigView {
    pub connections_table: Seq<char>,
    pub ws_api_id: Seq<char>,
    pub ws_stage: Seq<char>,
    pub aws_region: Seq<char>,
}

impl View for BroadcastConfig {
    type V = BroadcastConfigView;

    open spec fn view(&self) -> BroadcastConfigView {
        BroadcastConfigView {
            connections_table: self.connections_table@,
            ws_api_id: self.ws_api_id@,
            ws_stage: self.ws_stage@,
            aws_region: self.aws_region@,
        }
    }
}

impl ConfigError {
    /// The name of the variable that is missing.
    pub open spec fn variable(self) -> Seq<char> {
        match self {
            ConfigError::MissingRoomsTable => "CHAT_ROOMS_TABLE"@,
            ConfigError::MissingMessagesTable => "CHAT_MESSAGES_TABLE"@,
            ConfigError::MissingConnectionsTable => "CONNECTIONS_TABLE"@,
            ConfigError::MissingApiId => "WS_API_ID"@,
            ConfigError::MissingStage => "WS_STAGE"@,
            ConfigError::MissingRegion => "AWS_REGION"@,
        }
    }

    /// The error in words: the variable's name, and that it must be set.
    pub fn message(&self) -> (r: String)
        ensures
            r@ == self.variable() + " must be set"@,
    {
        let name = match self {
            ConfigError::MissingRoomsTable => "CHAT_ROOMS_TABLE",
            ConfigError::MissingMessagesTable => "CHAT_MESSAGES_TABLE",
            ConfigError::MissingConnectionsTable => "CONNECTIONS_TABLE",
            ConfigError::MissingApiId => "WS_API_ID",
            ConfigError::MissingStage => "WS_STAGE",
            ConfigError::MissingRegion => "AWS_REGION",
        };
        String::from_str(name).concat(" must be set")
    }
}

/// The table names that the two settings give, or the first that is missing.
pub open spec fn tables_of(rooms: Option<Seq<char>>, messages: Option<Seq<char>>) -> Result<
    (Seq<char>, Seq<char>),
    ConfigError,
> {
    match rooms {
        None => Err(ConfigError::MissingRoomsTable),
        Some(r) => match messages {
            None => Err(ConfigError::MissingMessagesTable),
            Some(m) => Ok((r, m)),
        },
    }
}

/// The dispatcher configuration that the four settings give, or the first
/// that is missing.
pub open spec fn broadcast_config_of(
    connections_table: Option<Seq<char>>,
    ws_api_id: Option<Seq<char>>,
    ws_stage: Option<Seq<char>>,
    aws_region: Option<Seq<char>>,
) -> Result<BroadcastConfigView, ConfigError> {
    if connections_table is None {
        Err(ConfigError::MissingConnectionsTable)
    } else if ws_api_id is None {
        Err(ConfigError::MissingApiId)
    } else if ws_stage is None {
        Err(ConfigError::MissingStage)
    } else if aws_region is None {
        Err(ConfigError::MissingRegion)
    } else {
        Ok(
            BroadcastConfigView {
                connections_table: connections_table->0,
                ws_api_id: ws_api_id->0,
                ws_stage: ws_stage->0,
                aws_region: aws_region->0,
            },
        )
    }
}

/// The address of the gateway's management endpoint.
pub open spec fn ws_endpoint_of(config: BroadcastConfigView) -> Seq<char> {
    "https://"@ + config.ws_api_id + ".execute-api."@ + config.aws_region + ".amazonaws.com/"@
        + config.ws_stage
}

impl Tables {
    /// The table names from the values of `CHAT_ROOMS_TABLE` and
    /// `CHAT_MESSAGES_TABLE`, each `None` where the variable is not set.
    pub fn from_env(rooms: Option<String>, messages: Option<String>) -> (r: Result<
        Tables,
        ConfigError,
    >)
        ensures
            match r {
                Ok(t) => tables_of(opt_text(rooms), opt_text(messages)) == Ok::<
                    (Seq<char>, Seq<char>),
                    ConfigError,
                >((t.rooms@, t.messages@)),
                Err(e) => tables_of(opt_text(rooms), opt_text(messages)) == Err::<
                    (Seq<char>, Seq<char>),
                    ConfigError,
                >(e),
            },
    {
        let rooms = match rooms {
            Some(v) => v,
            None => { return Err(ConfigError::MissingRoomsTable); },
        };
        let messages = match messages {
            Some(v) => v,
            None => { return Err(ConfigError::MissingMessagesTable); },
        };
        Ok(Tables { rooms, messages })
    }
}

impl BroadcastConfig {
    /// The dispatcher configuration from the values of `CONNECTIONS_TABLE`,
    /// `WS_API_ID`, `WS_STAGE` and `AWS_REGION`, each `None` where the
    /// variable is not set.
    pub fn from_env(
        connections_table: Option<String>,
        ws_api_id: Option<String>,
        ws_stage: Option<String>,
        aws_region: Option<String>,
    ) -> (r: Result<BroadcastConfig, ConfigError>)
        ensures
            match r {
                Ok(c) => broadcast_config_of(
                    opt_text(connections_table),
                    opt_text(ws_api_id),
                    opt_text(ws_stage),
                    opt_text(aws_region),
                ) == Ok::<BroadcastConfigView, ConfigError>(c@),
                Err(e) => broadcast_config_of(
                    opt_text(connections_table),
                    opt_text(ws_api_id),
                    opt_text(ws_stage),
                    opt_text(aws_region),
                ) == Err::<BroadcastConfigView, ConfigError>(e),
            },
    {
        let connections_table = match connections_table {
            Some(v) => v,
            None => { return Err(ConfigError::MissingConnectionsTable); },
        };
        let ws_api_id = match ws_api_id {
            Some(v) => v,
            None => { return Err(ConfigError::MissingApiId); },
        };
        let ws_stage = match ws_stage {
            Some(v) => v,
            None => { return Err(ConfigError::MissingStage); },
        };
        let aws_region = match aws_region {
            Some(v) => v,
            None => { return Err(ConfigError::MissingRegion); },
        };
        Ok(BroadcastConfig { connections_table, ws_api_id, ws_stage, aws_region })
    }

    /// The address of the gateway's management endpoint.
    pub fn ws_endpoint(&self) -> (r: String)
        ensures
            r@ == ws_endpoint_of(self@),
    {
        let mut out = String::from_str("https://");
        out.append(self.ws_api_id.as_str());
        out.append(".execute-api.");
        out.append(self.aws_region.as_str());
        out.append(".amazonaws.com/");
        out.append(self.ws_stage.as_str());
        out
    }
}

} // verus!
