//! The OpenAPI description of the HTTP surface.
use vstd::prelude::*;

verus! {

/// The OpenAPI document served at `/openapi.json`.
pub open spec fn openapi_document() -> Seq<char> {
    "{\"openapi\":\"3.0.3\",\"info\":{\"title\":\"db-api\",\"version\":\"0.1.0\",\"description\":\"Ephemeral SQL databases on demand\"},\"paths\":{\"/db/new\":{\"post\":{\"summary\":\"Create or restore a database\",\"requestBody\":{\"content\":{\"application/json\":{\"schema\":{\"type\":\"object\",\"required\":[\"dialect\"],\"properties\":{\"dialect\":{\"type\":\"string\",\"enum\":[\"mysql\",\"mariadb\",\"sqlserver\",\"mssql\"]},\"db_id\":{\"type\":\"string\",\"format\":\"uuid\"}}}}}},\"responses\":{\"200\":{\"description\":\"The database\"},\"400\":{\"description\":\"DIALECT_UNSUPPORTED\"},\"409\":{\"description\":\"RESTORE_IN_PROGRESS\"}}}},\"/db/{db_id}\":{\"get\":{\"summary\":\"Status of a database\",\"responses\":{\"200\":{\"description\":\"Status record\"},\"404\":{\"description\":\"DB_NOT_FOUND\"}}},\"delete\":{\"summary\":\"Destroy a database\",\"responses\":{\"200\":{\"description\":\"Destroyed\"},\"404\":{\"description\":\"DB_NOT_FOUND\"}}}},\"/db/{db_id}/query\":{\"post\":{\"summary\":\"Run a query\",\"requestBody\":{\"content\":{\"application/json\":{\"schema\":{\"type\":\"object\",\"required\":[\"query\"],\"properties\":{\"query\":{\"type\":\"string\"},\"format\":{\"type\":\"string\",\"enum\":[\"text\",\"json\",\"jsonl\"]},\"transport\":{\"type\":\"string\",\"enum\":[\"sse\"]}}}}}},\"responses\":{\"200\":{\"description\":\"Query result as text, JSON or server-sent events\"},\"404\":{\"description\":\"DB_NOT_FOUND\"},\"408\":{\"description\":\"QUERY_TIMEOUT\"}}}},\"/health\":{\"get\":{\"summary\":\"Health of the service\",\"responses\":{\"200\":{\"description\":\"Health status\"}}}}}}"@
}

pub fn openapi_spec() -> (r: &'static str)
    ensures
        r@ == openapi_document(),
{
    "{\"openapi\":\"3.0.3\",\"info\":{\"title\":\"db-api\",\"version\":\"0.1.0\",\"description\":\"Ephemeral SQL databases on demand\"},\"paths\":{\"/db/new\":{\"post\":{\"summary\":\"Create or restore a database\",\"requestBody\":{\"content\":{\"application/json\":{\"schema\":{\"type\":\"object\",\"required\":[\"dialect\"],\"properties\":{\"dialect\":{\"type\":\"string\",\"enum\":[\"mysql\",\"mariadb\",\"sqlserver\",\"mssql\"]},\"db_id\":{\"type\":\"string\",\"format\":\"uuid\"}}}}}},\"responses\":{\"200\":{\"description\":\"The database\"},\"400\":{\"description\":\"DIALECT_UNSUPPORTED\"},\"409\":{\"description\":\"RESTORE_IN_PROGRESS\"}}}},\"/db/{db_id}\":{\"get\":{\"summary\":\"Status of a database\",\"responses\":{\"200\":{\"description\":\"Status record\"},\"404\":{\"description\":\"DB_NOT_FOUND\"}}},\"delete\":{\"summary\":\"Destroy a database\",\"responses\":{\"200\":{\"description\":\"Destroyed\"},\"404\":{\"description\":\"DB_NOT_FOUND\"}}}},\"/db/{db_id}/query\":{\"post\":{\"summary\":\"Run a query\",\"requestBody\":{\"content\":{\"application/json\":{\"schema\":{\"type\":\"object\",\"required\":[\"query\"],\"properties\":{\"query\":{\"type\":\"string\"},\"format\":{\"type\":\"string\",\"enum\":[\"text\",\"json\",\"jsonl\"]},\"transport\":{\"type\":\"string\",\"enum\":[\"sse\"]}}}}}},\"responses\":{\"200\":{\"description\":\"Query result as text, JSON or server-sent events\"},\"404\":{\"description\":\"DB_NOT_FOUND\"},\"408\":{\"description\":\"QUERY_TIMEOUT\"}}}},\"/health\":{\"get\":{\"summary\":\"Health of the service\",\"responses\":{\"200\":{\"description\":\"Health status\"}}}}}}"
}

} // verus!
