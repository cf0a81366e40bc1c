//! The meta-schema: the relations that describe types, tables, columns and
//! reports, and the primitive types that every store starts with.

use vstd::prelude::*;

verus! {

/// What every connection to a store is told first: references are enforced
/// and writes go through a write-ahead log.
pub const CONNECTION_SETUP: &'static str = "PRAGMA foreign_keys = ON; PRAGMA journal_mode = WAL;";

/// The statements that make a new store: the relations of the meta-schema
/// and the ten primitive types, under the type ids 0 to 9.
pub const SCHEMA: &'static str = "BEGIN;
CREATE TABLE METADATA_TYPE (OID INTEGER PRIMARY KEY, TRASH BOOLEAN NOT NULL DEFAULT 0, MODE INTEGER NOT NULL DEFAULT 0);
INSERT INTO METADATA_TYPE (OID, MODE) VALUES (0, 0);
INSERT INTO METADATA_TYPE (OID, MODE) VALUES (1, 0);
INSERT INTO METADATA_TYPE (OID, MODE) VALUES (2, 0);
INSERT INTO METADATA_TYPE (OID, MODE) VALUES (3, 0);
INSERT INTO METADATA_TYPE (OID, MODE) VALUES (4, 0);
INSERT INTO METADATA_TYPE (OID, MODE) VALUES (5, 0);
INSERT INTO METADATA_TYPE (OID, MODE) VALUES (6, 0);
INSERT INTO METADATA_TYPE (OID, MODE) VALUES (7, 0);
INSERT INTO METADATA_TYPE (OID, MODE) VALUES (8, 0);
INSERT INTO METADATA_TYPE (OID, MODE) VALUES (9, 0);
CREATE TABLE METADATA_RPT_PARAMETER (OID INTEGER PRIMARY KEY);
CREATE TABLE METADATA_TABLE (TYPE_OID INTEGER PRIMARY KEY, TRASH BOOLEAN NOT NULL DEFAULT 0, NAME TEXT NOT NULL, FOREIGN KEY (TYPE_OID) REFERENCES METADATA_TYPE (OID) ON UPDATE CASCADE ON DELETE CASCADE);
ALTER TABLE METADATA_TABLE ADD COLUMN PARENT_TABLE_OID INTEGER REFERENCES METADATA_TABLE (TYPE_OID) ON UPDATE CASCADE;
CREATE TABLE METADATA_TABLE_INHERITANCE (OID INTEGER PRIMARY KEY, INHERITOR_TABLE_OID INTEGER REFERENCES METADATA_TABLE (TYPE_OID) ON UPDATE CASCADE ON DELETE CASCADE, MASTER_TABLE_OID INTEGER REFERENCES METADATA_TABLE (TYPE_OID) ON UPDATE CASCADE ON DELETE CASCADE, TRASH BOOLEAN NOT NULL DEFAULT 0);
CREATE TABLE METADATA_TABLE_COLUMN (OID INTEGER PRIMARY KEY, RPT_PARAMETER_OID INTEGER, TRASH BOOLEAN NOT NULL DEFAULT 0, TABLE_OID INTEGER NOT NULL, NAME TEXT NOT NULL DEFAULT 'Column', TYPE_OID INTEGER NOT NULL DEFAULT 8, COLUMN_CSS_STYLE TEXT DEFAULT 'width: 100;', COLUMN_ORDERING INTEGER NOT NULL DEFAULT 0, IS_NULLABLE TINYINT NOT NULL DEFAULT 1, IS_UNIQUE TINYINT NOT NULL DEFAULT 0, IS_PRIMARY_KEY TINYINT NOT NULL DEFAULT 0, DEFAULT_VALUE ANY, FOREIGN KEY (RPT_PARAMETER_OID) REFERENCES METADATA_RPT_PARAMETER (OID) ON UPDATE CASCADE, FOREIGN KEY (TABLE_OID) REFERENCES METADATA_TABLE (TYPE_OID) ON UPDATE CASCADE ON DELETE CASCADE, FOREIGN KEY (TYPE_OID) REFERENCES METADATA_TYPE (OID) ON UPDATE CASCADE ON DELETE SET DEFAULT);
CREATE TABLE METADATA_TABLE_ORDERBY (TABLE_OID INTEGER NOT NULL REFERENCES METADATA_TABLE (TYPE_OID) ON UPDATE CASCADE ON DELETE CASCADE, COLUMN_OID INTEGER NOT NULL REFERENCES METADATA_TABLE_COLUMN (OID) ON UPDATE CASCADE ON DELETE CASCADE, SORT_ORDERING INTEGER NOT NULL DEFAULT 0, SORT_ASCENDING BOOLEAN NOT NULL DEFAULT 0);
CREATE TABLE METADATA_RPT_PARAMETER__REFERENCED (RPT_PARAMETER_OID INTEGER PRIMARY KEY REFERENCES METADATA_RPT_PARAMETER (OID) ON UPDATE CASCADE ON DELETE CASCADE, REFERENCED_THROUGH_PARAMETER_OID INTEGER NOT NULL REFERENCES METADATA_RPT_PARAMETER (OID) ON UPDATE CASCADE ON DELETE CASCADE, COLUMN_OID INTEGER REFERENCES METADATA_TABLE_COLUMN (OID) ON UPDATE CASCADE ON DELETE CASCADE);
CREATE TABLE METADATA_RPT (OID INTEGER PRIMARY KEY, TRASH BOOLEAN NOT NULL DEFAULT 0);
CREATE TABLE METADATA_RPT__REPORT (RPT_OID INTEGER PRIMARY KEY REFERENCES METADATA_RPT (OID) ON UPDATE CASCADE ON DELETE CASCADE, BASE_TABLE_OID INTEGER NOT NULL REFERENCES METADATA_TABLE (TYPE_OID) ON UPDATE CASCADE ON DELETE CASCADE, NAME TEXT NOT NULL);
CREATE TABLE METADATA_RPT_COLUMN (OID INTEGER PRIMARY KEY, RPT_OID INTEGER NOT NULL REFERENCES METADATA_RPT (OID) ON UPDATE CASCADE ON DELETE CASCADE, TRASH BOOLEAN NOT NULL DEFAULT 0, NAME TEXT NOT NULL, CSS_COLUMN_STYLE TEXT DEFAULT 'width: 100;', COLUMN_ORDERING INTEGER NOT NULL DEFAULT 0);
CREATE TABLE METADATA_RPT_COLUMN__FORMULA (RPT_COLUMN_OID INTEGER PRIMARY KEY REFERENCES METADATA_RPT_COLUMN (OID) ON UPDATE CASCADE ON DELETE CASCADE, FORMULA TEXT NOT NULL);
CREATE TABLE METADATA_RPT_COLUMN__SUBREPORT (RPT_COLUMN_OID INTEGER PRIMARY KEY REFERENCES METADATA_RPT_COLUMN (OID) ON UPDATE CASCADE ON DELETE CASCADE, RPT_OID INTEGER NOT NULL REFERENCES METADATA_RPT (OID) ON UPDATE CASCADE, RPT_PARAMETER__REFERENCED__OID INTEGER NOT NULL REFERENCES METADATA_RPT_PARAMETER__REFERENCED (RPT_PARAMETER_OID) ON UPDATE CASCADE);
CREATE TABLE METADATA_RPT_GROUPBY (OID INTEGER PRIMARY KEY, RPT_OID INTEGER NOT NULL REFERENCES METADATA_RPT (OID) ON UPDATE CASCADE ON DELETE CASCADE, RPT_PARAMETER_OID INTEGER NOT NULL REFERENCES METADATA_RPT_PARAMETER (OID) ON UPDATE CASCADE ON DELETE CASCADE);
CREATE TABLE METADATA_RPT_ORDERBY (RPT_COLUMN_OID INTEGER NOT NULL REFERENCES METADATA_RPT_COLUMN (OID) ON UPDATE CASCADE ON DELETE CASCADE, SORT_ORDERING INTEGER NOT NULL DEFAULT 0, SORT_ASCENDING BOOLEAN NOT NULL DEFAULT 0);
COMMIT;";

} // verus!
