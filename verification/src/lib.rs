#![allow(unused_imports)]

pub mod ai;
pub mod asset_external_open;
pub mod asset_import;
pub mod asset_lifecycle;
pub mod asset_preview;
pub mod asset_search;
pub mod attachment_diff;
pub mod audit;
pub mod auth;
pub mod authoritative_document_diff;
pub mod authoritative_document_query;
pub mod authoritative_restore_preview;
pub mod backup;
pub mod backup_catalog;
pub mod backup_package;
pub mod backup_package_operation;
pub mod backup_recovery;
pub mod backup_restore;
pub mod canvas;
pub mod canvas_catalog;
pub mod canvas_graph_projection;
pub mod canvas_lifecycle;
pub mod canvas_mutation;
pub mod canvas_recovery;
pub mod canvas_target_presentation;
pub mod canvas_viewport;
pub mod collaboration;
pub mod collaborator_errors;
pub mod comment;
pub mod connector;
pub mod create_document_revision;
pub mod document;
pub mod document_diff;
pub mod document_diff_operation;
pub mod document_diff_query;
pub mod document_link_catalog_projection;
pub mod document_lock;
pub mod document_navigator;
pub mod document_revision_commit;
pub mod document_revision_metadata;
pub mod document_revision_recovery;
pub mod domain_errors;
pub mod export;
pub mod field_debug;
pub mod global_graph;
pub mod graph;
pub mod group;
pub mod sequences;
pub mod text;
