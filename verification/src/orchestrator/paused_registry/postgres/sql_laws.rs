//! The statements of the registry, word for word.
//!
//! PostgreSQL does what these texts say, and the steps of [`statements`](super::statements) follow
//! them clause by clause: whoever changes one of them changes what the registry does, and has to
//! change it here as well.

use super::grace::{GRACE_PHASE_SQL, RECORD_GRACE_SQL};
use super::schema::EXECUTION_AXIS_VIOLATIONS_SQL;
use super::sql;
use vstd::prelude::*;
use vstd::string::*;

verus! {

/// The statements of a pause and of a claim.
pub proof fn pauses_and_claims_read_so()
    ensures
        sql::LEASE_EXPIRED@ == "COALESCE(lease_expires_at, updated_at) < now()"@,
        sql::ENTRY_COLUMNS@ == "sandbox_id::text         AS sandbox_id,
       cluster_id::text         AS cluster_id,
       state                    AS state,
       generation               AS generation,
       origin_node_id           AS origin_node_id,
       claimed_by_node_id       AS claimed_by_node_id,
       snapshot_id::text        AS snapshot_id,
       metadata                 AS metadata,
       paused_at                AS paused_at,
       updated_at               AS updated_at,
       lease_expires_at         AS lease_expires_at,
       sandbox_expires_at       AS sandbox_expires_at,
       execution_id::text       AS execution_id,
       execution_started_at     AS execution_started_at"@,
        sql::ONE_ROW@ == "
  FROM paused_sandboxes
 WHERE sandbox_id = $1::uuid AND cluster_id = $2::uuid"@,
        sql::SOME_ROWS@ == "
  FROM paused_sandboxes
 WHERE cluster_id = $1::uuid AND sandbox_id = ANY($2::uuid[])"@,
        sql::ALL_ROWS@ == "
  FROM paused_sandboxes
 WHERE cluster_id = $1::uuid"@,
        sql::BEGIN_PAUSE_SQL@ == "
WITH previous AS (
    SELECT snapshot_id FROM paused_sandboxes
     WHERE sandbox_id = $1::uuid AND cluster_id = $2::uuid
),
upserted AS (
    INSERT INTO paused_sandboxes (
        sandbox_id, cluster_id, state, generation, origin_node_id,
        claimed_by_node_id, snapshot_id, metadata, paused_at, updated_at,
        lease_expires_at, execution_id, execution_started_at
    )
    VALUES ($1::uuid, $2::uuid, 'publishing', 1, $3, NULL, NULL, $4::jsonb, now(), now(),
            now() + make_interval(secs => $5::double precision), $6::uuid, now())
    ON CONFLICT (sandbox_id) DO UPDATE SET
        state              = 'publishing',
        generation         = paused_sandboxes.generation + 1,
        origin_node_id     = EXCLUDED.origin_node_id,
        claimed_by_node_id = NULL,
        metadata           = EXCLUDED.metadata,
        paused_at          = EXCLUDED.paused_at,
        updated_at         = EXCLUDED.updated_at,
        lease_expires_at   = EXCLUDED.lease_expires_at
    WHERE paused_sandboxes.cluster_id   = EXCLUDED.cluster_id
      AND paused_sandboxes.execution_id = EXCLUDED.execution_id
    RETURNING generation
)
SELECT upserted.generation          AS generation,
       previous.snapshot_id::text   AS previous_snapshot_id
  FROM upserted
  LEFT JOIN previous ON TRUE"@,
        sql::CLASSIFY_REFUSED_PAUSE_SQL@ == "SELECT cluster_id::text, execution_id::text FROM paused_sandboxes WHERE sandbox_id = $1::uuid"@,
        sql::COMPLETE_PAUSE_SQL@ == "
UPDATE paused_sandboxes
   SET state = 'paused', snapshot_id = $3::uuid, updated_at = now(),
       lease_expires_at = now() + make_interval(secs => $4::double precision),
       execution_id = NULL, execution_started_at = NULL
 WHERE sandbox_id = $1::uuid AND cluster_id = $5::uuid
   AND generation = $2 AND state = 'publishing'"@,
        sql::MARK_LOCAL_ONLY_SQL@ == "
UPDATE paused_sandboxes
   SET state = 'local_only', updated_at = now(),
       lease_expires_at = now() + make_interval(secs => $3::double precision),
       execution_id = NULL, execution_started_at = NULL
 WHERE sandbox_id = $1::uuid AND cluster_id = $4::uuid
   AND generation = $2 AND state = 'publishing'"@,
        sql::CLAIM_DURABLE@ == "
WITH previous AS (
    SELECT state AS previous_state
      FROM paused_sandboxes
     WHERE sandbox_id = $1::uuid AND cluster_id = $4::uuid
),
claimed AS (
    UPDATE paused_sandboxes
       SET state = 'resuming', claimed_by_node_id = $2,
           execution_id = $5::uuid, execution_started_at = now(),
           generation = generation + 1, updated_at = now(),
           lease_expires_at = now() + make_interval(secs => $3::double precision)
     WHERE sandbox_id = $1::uuid
       AND cluster_id = $4::uuid
       AND snapshot_id IS NOT NULL
       AND "@,
        sql::CLAIM_RESULT@ == "
)
SELECT claimed.*, previous.previous_state
  FROM claimed JOIN previous ON TRUE"@,
        sql::RELEASE_CLAIM_SQL@ == "
UPDATE paused_sandboxes
   SET state = 'paused', claimed_by_node_id = NULL, updated_at = now(),
       lease_expires_at = now() + make_interval(secs => $3::double precision),
       execution_id = NULL, execution_started_at = NULL
 WHERE sandbox_id = $1::uuid AND cluster_id = $4::uuid
   AND generation = $2 AND state = 'resuming'"@,
{
}

/// The statements of a start and of its renewals.
pub proof fn starts_and_renewals_read_so()
    ensures
        sql::MARK_RUNNING_SQL@ == "
UPDATE paused_sandboxes
   SET state = 'running', origin_node_id = $7, claimed_by_node_id = NULL,
       execution_id = $6::uuid,
       execution_started_at = CASE
           WHEN state = 'running' AND execution_id = $6::uuid
                THEN execution_started_at
           ELSE now()
       END,
       generation = generation + 1, updated_at = now(),
       lease_expires_at = now() + make_interval(secs => $3::double precision),
       sandbox_expires_at = $5
 WHERE sandbox_id = $1::uuid
   AND cluster_id = $4::uuid
   AND (
         (state = 'resuming' AND claimed_by_node_id = $2
                             AND execution_id = $6::uuid)
      OR (state IN ('paused', 'publishing', 'local_only')
                             AND origin_node_id = $2
                             AND claimed_by_node_id IS NULL)
      OR (state = 'running'  AND origin_node_id = $7
                             AND execution_id = $6::uuid)
       )"@,
        sql::RENEW_SANDBOX_DEADLINE_SQL@ == "
UPDATE paused_sandboxes
   SET sandbox_expires_at = $3,
       updated_at         = now()
 WHERE sandbox_id = $1::uuid
   AND cluster_id = $4::uuid
   AND state = 'running'
   AND execution_id = $2::uuid"@,
        sql::RENEW_LEASE_SQL@ == "
UPDATE paused_sandboxes AS p
   SET lease_expires_at   = now() + make_interval(secs => $1::double precision),
       sandbox_expires_at = v.expires_at,
       updated_at         = now()
  FROM (SELECT unnest($3::uuid[])        AS sandbox_id,
               unnest($4::timestamptz[]) AS expires_at) AS v
 WHERE p.sandbox_id = v.sandbox_id
   AND p.cluster_id = $2::uuid
   AND ((p.state IN ('running', 'publishing', 'local_only') AND p.origin_node_id = $5)
     OR (p.state = 'resuming' AND p.claimed_by_node_id = $5))"@,
        sql::RENEW_PARKED_LEASE_SQL@ == "
UPDATE paused_sandboxes AS p
   SET lease_expires_at = now() + make_interval(secs => $1::double precision),
       updated_at       = now()
  FROM (SELECT unnest($3::uuid[]) AS sandbox_id,
               unnest($4::text[]) AS node_id) AS v
 WHERE p.sandbox_id = v.sandbox_id
   AND p.cluster_id = $2::uuid
   AND p.state IN ('publishing', 'local_only')
   AND p.origin_node_id = v.node_id"@,
        sql::RENEW_LIVE_LEASE_SQL@ == "
UPDATE paused_sandboxes AS p
   SET lease_expires_at = now() + make_interval(secs => $1::double precision),
       updated_at       = now()
  FROM (SELECT unnest($3::uuid[]) AS sandbox_id,
               unnest($4::text[]) AS node_id) AS v
 WHERE p.sandbox_id = v.sandbox_id
   AND p.cluster_id = $2::uuid
   AND p.state = 'running'
   AND p.origin_node_id = v.node_id"@,
        sql::EXTEND_LEASES_SQL@ == "
WITH observed AS (
    SELECT GREATEST(
               COALESCE(now() - max(updated_at), make_interval(secs => $2::double precision)),
               interval '0'
           ) AS downtime
      FROM paused_sandboxes
     WHERE cluster_id = $1::uuid
),
extended AS (
    UPDATE paused_sandboxes p
       SET lease_expires_at = COALESCE(p.lease_expires_at, p.updated_at)
                            + (SELECT downtime FROM observed)
                            + make_interval(secs => $2::double precision)
     WHERE p.cluster_id = $1::uuid
    RETURNING 1
)
SELECT EXTRACT(EPOCH FROM (SELECT downtime FROM observed))::double precision AS downtime_secs,
       (SELECT count(*) FROM extended)                                       AS extended"@,
{
}

/// The statements that give rows back or delete them.
pub proof fn releases_and_removals_read_so()
    ensures
        sql::LIVE_HOLDINGS_OF_NODE@ == "((state = 'running'  AND origin_node_id     = $2)
              OR (state = 'resuming' AND claimed_by_node_id = $2))"@,
        sql::RECLAIM_RELEASED_RUNNING_SQL@ == "
UPDATE paused_sandboxes
   SET state = 'paused', claimed_by_node_id = NULL,
       execution_id = NULL, execution_started_at = NULL,
       generation = generation + 1, updated_at = now(),
       lease_expires_at = now()
 WHERE cluster_id = $1::uuid
   AND snapshot_id IS NOT NULL
   AND state = 'running'
   AND COALESCE(lease_expires_at, updated_at) < now()
   AND sandbox_expires_at < now()"@,
        sql::RECLAIM_RELEASED_RESUMING_SQL@ == "
UPDATE paused_sandboxes
   SET state = 'paused', claimed_by_node_id = NULL,
       execution_id = NULL, execution_started_at = NULL,
       generation = generation + 1, updated_at = now(),
       lease_expires_at = now()
 WHERE cluster_id = $1::uuid
   AND snapshot_id IS NOT NULL
   AND state = 'resuming'
   AND COALESCE(lease_expires_at, updated_at) < now()"@,
        sql::RECLAIM_DISCARDED_SQL@ == "
DELETE FROM paused_sandboxes
 WHERE cluster_id = $1::uuid
   AND snapshot_id IS NULL
   AND state IN ('running', 'resuming')
   AND COALESCE(lease_expires_at, updated_at) < now()
   AND sandbox_expires_at < now()"@,
        sql::COUNT_RECLAIM_DISCARDABLE_SQL@ == "
SELECT count(*) FROM paused_sandboxes
 WHERE cluster_id = $1::uuid
   AND snapshot_id IS NULL
   AND state IN ('running', 'resuming')
   AND COALESCE(lease_expires_at, updated_at) < now()
   AND sandbox_expires_at < now()"@,
        sql::COUNT_CLUSTER_ROWS_SQL@ == "SELECT count(*) FROM paused_sandboxes WHERE cluster_id = $1::uuid"@,
        sql::RELEASE_DURABLE@ == "
UPDATE paused_sandboxes
   SET state = 'paused', claimed_by_node_id = NULL,
       execution_id = NULL, execution_started_at = NULL,
       generation = generation + 1, updated_at = now(),
       lease_expires_at = now()
 WHERE cluster_id = $1::uuid
   AND snapshot_id IS NOT NULL
   AND "@,
        sql::DISCARD_UNDURABLE@ == "
DELETE FROM paused_sandboxes
 WHERE cluster_id = $1::uuid
   AND snapshot_id IS NULL
   AND "@,
        sql::REMOVE_SQL@ == "DELETE FROM paused_sandboxes
 WHERE sandbox_id = $1::uuid AND cluster_id = $2::uuid AND generation = $3"@,
{
}

/// The statements of restart grace, and the one that looks for rows outside the identity axis.
pub proof fn grace_and_axis_read_so()
    ensures
        RECORD_GRACE_SQL@ == "INSERT INTO paused_registry_grace (cluster_id, grace_until, downtime_secs, leases_extended, entered_at)
         VALUES ($1, now() + make_interval(secs => $2::double precision), $3, $4, now())
         ON CONFLICT (cluster_id) DO UPDATE SET
             grace_until     = EXCLUDED.grace_until,
             downtime_secs   = EXCLUDED.downtime_secs,
             leases_extended = EXCLUDED.leases_extended,
             entered_at      = EXCLUDED.entered_at"@,
        GRACE_PHASE_SQL@ == "SELECT (now() >= grace_until) FROM paused_registry_grace WHERE cluster_id = $1"@,
        EXECUTION_AXIS_VIOLATIONS_SQL@ == "SELECT count(*) FROM paused_sandboxes WHERE (state IN ('running', 'publishing', 'resuming')) IS DISTINCT FROM (execution_id IS NOT NULL) OR (execution_id IS NULL) IS DISTINCT FROM (execution_started_at IS NULL)"@,
{
}

} // verus!
