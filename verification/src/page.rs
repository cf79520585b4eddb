//! The page of the web app.

use vstd::prelude::*;

verus! {

/// The text of the web app's page.
pub open spec fn web_app_page() -> Seq<char> {
    r###"<!doctype html>
<html lang="en">
<head>
  <meta charset="utf-8">
  <meta name="viewport" content="width=device-width, initial-scale=1, viewport-fit=cover">
  <title>Coffee Dial-In</title>
  <style>
    :root {
      color-scheme: dark;
      --bg: #0d0f12;
      --panel: #181b20;
      --panel-2: #20252c;
      --text: #f5f1e8;
      --muted: #aaa49a;
      --line: #343a42;
      --add: #d7b84f;
      --goal: #a6e22e;
      --goal-bg: rgba(166, 226, 46, 0.14);
      --goal-line: rgba(166, 226, 46, 0.46);
      --danger: #ff4d6d;
      --danger-text: #ffb3c1;
      --danger-bg: rgba(255, 77, 109, 0.14);
      --danger-line: rgba(255, 77, 109, 0.58);
      --shadow: 0 22px 60px rgba(0, 0, 0, 0.34);
    }

    * { box-sizing: border-box; }
    html { min-height: 100%; background: var(--bg); }
    body {
      min-height: 100%;
      margin: 0;
      font-family: Inter, ui-sans-serif, system-ui, -apple-system, BlinkMacSystemFont, "Segoe UI", sans-serif;
      color: var(--text);
      background:
        linear-gradient(180deg, rgba(255, 255, 255, 0.032), transparent 9rem),
        linear-gradient(115deg, rgba(215, 184, 79, 0.048), rgba(215, 184, 79, 0.016) 28rem, transparent 44rem),
        repeating-linear-gradient(90deg, rgba(255, 255, 255, 0.014) 0 1px, transparent 1px 80px),
        repeating-linear-gradient(0deg, rgba(255, 255, 255, 0.01) 0 1px, transparent 1px 80px),
        linear-gradient(180deg, #15171b 0%, #0f1114 54%, #0b0c0f 100%);
    }

    button, input, select {
      font: inherit;
      color: inherit;
    }

    .app {
      width: min(1180px, 100%);
      min-height: 100dvh;
      margin: 0 auto;
      padding: max(18px, env(safe-area-inset-top)) 16px max(28px, env(safe-area-inset-bottom));
    }

    .meta {
      color: var(--muted);
      font-size: 0.88rem;
    }

    .primary-layout {
      display: grid;
      grid-template-columns: minmax(280px, 0.68fr) minmax(0, 1.55fr);
      gap: 16px;
      align-items: stretch;
    }

    .panel {
      background: color-mix(in srgb, var(--panel) 94%, black);
      border: 1px solid var(--line);
      border-radius: 8px;
      box-shadow: var(--shadow);
    }

    .control-panel {
      position: sticky;
      top: 14px;
      display: grid;
      gap: 10px;
      align-content: start;
      padding: 0;
      overflow: visible;
      background: transparent;
      border: 0;
      box-shadow: none;
    }

    .control-section {
      display: grid;
      grid-template-rows: 48px auto;
      align-content: start;
      gap: 0;
      padding: 0;
      background: color-mix(in srgb, var(--panel) 94%, black);
      border: 1px solid var(--line);
      border-radius: 8px;
      box-shadow: var(--shadow);
      overflow: hidden;
    }

    .control-section + .control-section {
      background:
        linear-gradient(rgba(255, 255, 255, 0.018), rgba(255, 255, 255, 0.018)),
        color-mix(in srgb, var(--panel) 94%, black);
    }

    .section-title {
      display: flex;
      align-items: center;
      justify-content: space-between;
      gap: 12px;
      min-height: 48px;
      padding: 0 15px;
      border-bottom: 1px solid var(--line);
      background: rgba(255, 255, 255, 0.026);
    }

    .section-title h2 {
      margin: 0;
      font-size: 1.05rem;
      line-height: 1.15;
      letter-spacing: 0;
    }

    .section-title span {
      color: var(--muted);
      font-size: 0.82rem;
    }

    .section-body {
      display: grid;
      gap: 14px;
      padding: 15px;
    }

    .field {
      display: grid;
      gap: 7px;
    }

    .field.inline-setting {
      grid-template-columns: auto minmax(4.5rem, 6rem);
      justify-content: space-between;
      align-items: center;
      gap: 12px;
      min-height: 50px;
      border: 1px solid var(--line);
      border-radius: 8px;
      background:
        linear-gradient(90deg, rgba(166, 226, 46, 0.035), transparent 42%),
        var(--panel-2);
      padding: 0 12px 0 13px;
    }

    .field.inline-setting label {
      display: inline-flex;
      align-items: center;
      gap: 6px;
      white-space: nowrap;
      font-size: 0.98rem;
      font-weight: 900;
      color: #c9c5b9;
    }

    .field.inline-setting label svg {
      width: 20px;
      height: 20px;
      color: #d9d6cc;
      stroke: currentColor;
      flex: 0 0 auto;
    }

    .field.inline-setting input {
      width: 6rem;
      min-height: 38px;
      border-color: transparent;
      background: transparent;
      text-align: center;
      font-size: 2rem;
      font-weight: 500;
      color: #f8fafc;
      padding: 6px 4px;
    }

    .field.inline-setting input:focus {
      border-color: var(--goal);
      box-shadow: 0 0 0 3px var(--goal-bg);
    }

    label {
      color: var(--muted);
      font-size: 0.78rem;
      font-weight: 700;
      text-transform: uppercase;
      letter-spacing: 0.08em;
    }

    input, select {
      width: 100%;
      min-height: 50px;
      border: 1px solid var(--line);
      border-radius: 8px;
      background: var(--panel-2);
      padding: 12px 13px;
      outline: none;
    }

    select {
      padding-right: 42px;
      background-clip: padding-box;
    }

    input:focus, select:focus {
      border-color: var(--add);
      box-shadow: 0 0 0 3px rgba(215, 184, 79, 0.18);
    }

    .row {
      display: grid;
      grid-template-columns: 1fr 1fr;
      gap: 10px;
    }

    .button {
      display: inline-flex;
      align-items: center;
      justify-content: center;
      gap: 8px;
      min-height: 50px;
      border: 0;
      border-radius: 8px;
      background: var(--add);
      color: #102018;
      font-weight: 800;
      padding: 0 16px;
      cursor: pointer;
      touch-action: manipulation;
      position: relative;
      overflow: hidden;
    }

    .button svg {
      width: 18px;
      height: 18px;
      stroke: currentColor;
      flex: 0 0 auto;
    }

    .button.secondary {
      background: #2c333b;
      color: var(--text);
      border: 1px solid var(--line);
    }

    .button.compact {
      min-height: 38px;
      padding: 0 12px;
      font-size: 0.88rem;
    }

    .button.goal-action,
    .button.sample-action {
      background:
        linear-gradient(180deg, rgba(234, 255, 183, 0.09), rgba(166, 226, 46, 0.08) 42%, rgba(166, 226, 46, 0.16)),
        rgba(18, 28, 18, 0.92);
      color: #eaffb7;
      border: 1px solid rgba(166, 226, 46, 0.72);
      box-shadow:
        inset 0 1px 0 rgba(234, 255, 183, 0.16),
        inset 0 -1px 0 rgba(0, 0, 0, 0.22),
        0 9px 20px rgba(0, 0, 0, 0.26);
    }

    .button:not(:disabled)::after,
    .icon-button:not(:disabled)::after {
      content: "";
      position: absolute;
      inset: 0;
      transform: translateX(-135%);
      background: linear-gradient(
        110deg,
        transparent 0%,
        transparent 36%,
        rgba(217, 249, 157, 0.06) 45%,
        rgba(217, 249, 157, 0.18) 50%,
        rgba(217, 249, 157, 0.06) 55%,
        transparent 64%,
        transparent 100%
      );
      pointer-events: none;
      animation: button-shimmer 7.5s ease-in-out infinite;
    }

    .button > *,
    .icon-button > * {
      position: relative;
      z-index: 1;
    }

    .button.goal-action:hover,
    .button.goal-action:focus,
    .button.sample-action:hover,
    .button.sample-action:focus {
      background:
        linear-gradient(180deg, rgba(234, 255, 183, 0.14), rgba(166, 226, 46, 0.14) 42%, rgba(166, 226, 46, 0.22)),
        rgba(22, 35, 20, 0.96);
      border-color: rgba(166, 226, 46, 0.86);
      box-shadow:
        inset 0 1px 0 rgba(234, 255, 183, 0.22),
        inset 0 -1px 0 rgba(0, 0, 0, 0.22),
        0 0 0 3px var(--goal-bg),
        0 10px 22px rgba(0, 0, 0, 0.24);
    }

    .icon-button {
      display: inline-grid;
      place-items: center;
      width: 38px;
      height: 38px;
      border: 1px solid var(--line);
      border-radius: 8px;
      background: #2c333b;
      color: var(--muted);
      cursor: pointer;
      touch-action: manipulation;
      position: relative;
      overflow: hidden;
    }

    .icon-button.recipe-delete {
      width: 100%;
      height: auto;
      min-height: 50px;
    }

    .icon-button svg {
      width: 18px;
      height: 18px;
      stroke: currentColor;
    }

    .icon-button.danger:hover,
    .icon-button.danger:focus {
      color: #ffd6df;
      border-color: rgba(255, 77, 109, 0.78);
      background: rgba(255, 77, 109, 0.18);
    }

    .icon-button.danger {
      color: var(--danger-text);
      border-color: var(--danger-line);
      background: var(--danger-bg);
    }

    .icon-button.refresh {
      color: #d9f99d;
      border-color: rgba(166, 226, 46, 0.45);
      background: rgba(72, 104, 31, 0.45);
    }

    .icon-button.refresh:hover,
    .icon-button.refresh:focus {
      color: #f0ffd0;
      border-color: rgba(166, 226, 46, 0.72);
      background: rgba(91, 133, 37, 0.58);
      box-shadow: 0 0 0 3px var(--goal-bg);
    }

    .icon-button:disabled {
      opacity: 0.45;
      cursor: not-allowed;
    }

    .button:active { transform: translateY(1px); }

    @keyframes button-shimmer {
      0%, 68% {
        transform: translateX(-135%);
      }
      82%, 100% {
        transform: translateX(135%);
      }
    }

    @media (prefers-reduced-motion: reduce) {
      .button::after,
      .icon-button::after {
        animation: none;
        display: none;
      }
    }

    .row > .button {
      align-self: end;
    }

    .modal-form > .button,
    #sampleForm > .button {
      grid-column: 1 / -1;
    }

    .recipe-actions {
      display: grid;
      grid-template-columns: 3fr 1fr;
      gap: 10px;
      align-items: stretch;
    }

    .recipe-actions > .button,
    .recipe-actions > .icon-button {
      height: 100%;
    }

    .shot-actions {
      display: grid;
      margin-top: 4px;
    }

    .add-sample-button {
      width: 38px;
      height: 38px;
      color: #eaffb7;
      border-color: rgba(166, 226, 46, 0.72);
      background:
        linear-gradient(180deg, rgba(234, 255, 183, 0.09), rgba(166, 226, 46, 0.08) 42%, rgba(166, 226, 46, 0.16)),
        rgba(18, 28, 18, 0.92);
    }

    .add-sample-button:hover,
    .add-sample-button:focus {
      color: #f0ffd0;
      border-color: rgba(166, 226, 46, 0.86);
      background:
        linear-gradient(180deg, rgba(234, 255, 183, 0.14), rgba(166, 226, 46, 0.14) 42%, rgba(166, 226, 46, 0.22)),
        rgba(22, 35, 20, 0.96);
      box-shadow: 0 0 0 3px var(--goal-bg);
    }

    .prediction {
      display: grid;
      grid-template-columns: 1fr auto;
      gap: 12px;
      align-items: end;
      padding: 16px;
      background: linear-gradient(135deg, rgba(166, 226, 46, 0.14), #191f20);
      border: 1px solid var(--goal-line);
      border-radius: 8px;
      cursor: default;
    }

    .prediction.is-actionable {
      cursor: pointer;
    }

    .prediction.is-actionable:hover,
    .prediction.is-actionable:focus-within {
      border-color: rgba(166, 226, 46, 0.72);
      box-shadow: 0 0 0 3px var(--goal-bg);
    }

    .prediction .label {
      color: var(--muted);
      font-size: 0.78rem;
      font-weight: 800;
      text-transform: uppercase;
      letter-spacing: 0.08em;
    }

    .prediction .grind {
      font-size: 3.2rem;
      line-height: 0.9;
      font-weight: 900;
      letter-spacing: 0;
    }

    .prediction .curve-grind {
      margin-top: 8px;
      color: #fbbf24;
      font-size: 1.02rem;
      font-weight: 900;
      letter-spacing: 0;
    }

    .prediction .target {
      color: var(--goal);
      font-weight: 800;
      text-align: right;
      white-space: nowrap;
    }

    .graph-panel {
      display: grid;
      grid-template-rows: auto minmax(0, 1fr);
      overflow: hidden;
      min-height: 100%;
    }

    .graph-head {
      display: flex;
      justify-content: space-between;
      gap: 18px;
      align-items: center;
      min-height: 48px;
      padding: 0 16px 0 18px;
      border-bottom: 1px solid var(--line);
      background: rgba(255, 255, 255, 0.026);
    }

    .graph-head h2 {
      margin: 0;
      font-size: 1.05rem;
      font-weight: 800;
      letter-spacing: 0;
    }

    .graph-meta {
      display: flex;
      align-items: center;
      justify-content: flex-end;
      gap: 14px;
      text-align: right;
    }

    .shot-meter {
      display: inline-flex;
      align-items: center;
      gap: 8px;
      min-height: 38px;
      padding: 0 10px;
      border: 1px solid var(--goal-line);
      border-radius: 8px;
      background: rgba(166, 226, 46, 0.08);
      color: #d9f99d;
      font-size: 0.92rem;
      font-weight: 800;
      text-transform: uppercase;
      white-space: nowrap;
    }

    .shot-meter.is-empty {
      border-color: rgba(166, 226, 46, 0.28);
      background: rgba(166, 226, 46, 0.045);
      color: rgba(217, 249, 157, 0.78);
    }

    .shot-meter.is-hidden {
      display: none;
    }

    .shot-notches {
      display: grid;
      grid-template-columns: repeat(6, 12px);
      gap: 4px;
      align-items: end;
      height: 18px;
    }

    .shot-notch {
      width: 12px;
      height: 8px;
      border-radius: 2px;
      background: rgba(166, 226, 46, 0.08);
      border: 1px solid rgba(166, 226, 46, 0.14);
    }

    .shot-notch:nth-child(2) { height: 10px; }
    .shot-notch:nth-child(3) { height: 12px; }
    .shot-notch:nth-child(4) { height: 14px; }
    .shot-notch:nth-child(5) { height: 16px; }
    .shot-notch:nth-child(6) { height: 18px; }

    .shot-notch.is-filled {
      background: var(--goal);
      border-color: rgba(166, 226, 46, 0.78);
      box-shadow: 0 0 10px rgba(166, 226, 46, 0.22);
    }

    .graph-body {
      display: grid;
      grid-template-columns: minmax(0, 1fr) minmax(220px, 260px);
      height: 560px;
      min-height: 0;
    }

    .graph-main {
      display: grid;
      grid-template-rows: auto minmax(0, 1fr);
      min-height: 0;
      background: #15181d;
    }

    .graph-legend {
      display: flex;
      flex-wrap: wrap;
      align-items: center;
      gap: 8px 14px;
      min-height: 38px;
      padding: 8px 12px 4px;
      color: var(--muted);
      font-size: 0.72rem;
      font-weight: 800;
      text-transform: uppercase;
      letter-spacing: 0.06em;
    }

    .legend-item {
      display: inline-flex;
      align-items: center;
      gap: 6px;
      white-space: nowrap;
    }

    .legend-line {
      width: 24px;
      height: 0;
      border-top: 3px solid currentColor;
      border-radius: 999px;
    }

    .legend-line.is-solid { color: #60a5fa; }
    .legend-line.is-dotted {
      width: 28px;
      border-top-style: dotted;
      color: #fbbf24;
    }
    .legend-line.is-target {
      width: 28px;
      border-top-style: dashed;
      color: #a6e22e;
    }

    .legend-dot {
      width: 10px;
      height: 10px;
      border-radius: 50%;
      background: currentColor;
      box-shadow: 0 0 0 2px #0f172a;
    }

    .legend-dot.is-sample { color: #64748b; }
    .legend-dot.is-model { color: #2dd4bf; }

    .legend-zone {
      width: 20px;
      height: 10px;
      border-left: 3px dotted var(--danger);
      background: rgba(255, 77, 109, 0.16);
    }

    .graph-wrap {
      min-height: 280px;
      padding: 8px 10px 10px;
      overflow: hidden;
      background:
        linear-gradient(180deg, rgba(255, 255, 255, 0.014), transparent 7rem),
        #15181d;
      display: grid;
      align-items: stretch;
    }

    .graph-wrap svg {
      display: block;
      width: 100%;
      height: 100%;
      min-height: 0;
      border-radius: 6px;
    }

    .samples {
      display: grid;
      gap: 8px;
      grid-template-rows: auto auto minmax(0, 1fr);
      min-height: 0;
      overflow: hidden;
      padding: 12px 16px 16px;
      border-left: 1px solid var(--line);
      background: rgba(13, 15, 18, 0.36);
    }

    .samples-head {
      display: flex;
      align-items: center;
      justify-content: space-between;
      gap: 10px;
      min-width: 0;
    }

    .sample-list-head,
    .sample-list {
      min-width: 0;
    }

    .sample-list-head {
      display: grid;
      grid-template-columns: minmax(0, 1fr) minmax(0, 1fr) 34px;
      gap: 10px;
      padding: 0 10px;
      color: var(--muted);
      font-size: 0.72rem;
      font-weight: 800;
      text-transform: uppercase;
      letter-spacing: 0.08em;
    }

    .sample-list {
      display: grid;
      align-content: start;
      gap: 6px;
      min-height: 0;
      overflow-y: auto;
      overflow-x: hidden;
      padding-right: 2px;
    }

    .sample {
      display: grid;
      grid-template-columns: minmax(0, 1fr) minmax(0, 1fr) 34px;
      align-items: center;
      gap: 10px;
      min-height: 38px;
      padding: 5px 6px 5px 10px;
      background: var(--panel-2);
      border: 1px solid var(--line);
      border-radius: 8px;
    }

    .sample-cell {
      display: inline-flex;
      align-items: center;
      gap: 7px;
      min-width: 0;
      color: var(--text);
      font-weight: 800;
      line-height: 1;
    }

    .sample-cell svg {
      width: 16px;
      height: 16px;
      flex: 0 0 auto;
      color: var(--muted);
      stroke: currentColor;
    }

    .sample-cell span {
      overflow: hidden;
      text-overflow: ellipsis;
      white-space: nowrap;
      min-width: 0;
    }

    .sample .icon-button {
      width: 34px;
      height: 34px;
    }

    .sample.is-choked {
      border-color: var(--danger-line);
      background:
        linear-gradient(rgba(255, 77, 109, 0.08), rgba(255, 77, 109, 0.08)),
        var(--panel-2);
    }

    .sample.is-choked .sample-cell:first-child {
      color: var(--danger-text);
    }

    dialog.modal {
      width: min(440px, calc(100vw - 24px));
      max-height: calc(100dvh - max(44px, env(safe-area-inset-top)) - 16px);
      border: 1px solid var(--line);
      border-radius: 8px;
      background: var(--panel);
      color: var(--text);
      padding: 0;
      box-shadow: var(--shadow);
      overflow: auto;
      position: fixed;
      top: max(44px, env(safe-area-inset-top));
      bottom: auto;
      left: 50%;
      right: auto;
      transform: translateX(-50%);
      margin: 0;
    }

    dialog.modal::backdrop {
      background: rgba(0, 0, 0, 0.58);
      backdrop-filter: blur(2px);
    }

    .modal-head {
      display: flex;
      align-items: center;
      justify-content: space-between;
      gap: 12px;
      padding: 14px 16px;
      border-bottom: 1px solid var(--line);
    }

    .modal-head h2 {
      margin: 0;
      font-size: 1rem;
      letter-spacing: 0;
    }

    .modal-form {
      display: grid;
      gap: 14px;
      padding: 16px;
    }

    .model-choice-field {
      display: none;
      gap: 10px;
    }

    .modal-form.is-model-choice .manual-grind-field {
      display: none;
    }

    .modal-form.is-model-choice .model-choice-field {
      display: grid;
    }

    .model-choice-buttons {
      display: grid;
      grid-template-columns: 1fr 1fr;
      gap: 10px;
    }

    .model-choice-button {
      display: grid;
      gap: 4px;
      justify-items: start;
      width: 100%;
      height: auto;
      min-height: 64px;
      padding: 10px 12px;
      color: #eaffb7;
      text-align: left;
      border-color: rgba(166, 226, 46, 0.48);
      background:
        linear-gradient(180deg, rgba(234, 255, 183, 0.06), rgba(166, 226, 46, 0.06)),
        rgba(18, 28, 18, 0.72);
    }

    .model-choice-button .model-label {
      color: var(--muted);
      font-size: 0.72rem;
      font-weight: 900;
      text-transform: uppercase;
      letter-spacing: 0.08em;
    }

    .model-choice-button .model-value {
      font-size: 1.35rem;
      font-weight: 900;
      line-height: 1;
      letter-spacing: 0;
    }

    .model-choice-button.is-selected {
      border-color: rgba(166, 226, 46, 0.88);
      box-shadow: 0 0 0 3px var(--goal-bg);
      background:
        linear-gradient(180deg, rgba(234, 255, 183, 0.14), rgba(166, 226, 46, 0.16)),
        rgba(22, 35, 20, 0.96);
    }

    .model-choice-button.curve-model {
      color: #fbbf24;
      border-color: rgba(251, 191, 36, 0.48);
      background:
        linear-gradient(180deg, rgba(251, 191, 36, 0.08), rgba(251, 191, 36, 0.04)),
        rgba(32, 25, 12, 0.8);
    }

    .model-choice-button.curve-model.is-selected {
      border-color: rgba(251, 191, 36, 0.88);
      box-shadow: 0 0 0 3px rgba(251, 191, 36, 0.16);
    }

    .toggle-field {
      display: flex;
      align-items: center;
      justify-content: space-between;
      gap: 12px;
      min-height: 48px;
      padding: 0 13px;
      border: 1px solid var(--danger-line);
      border-radius: 8px;
      background: var(--danger-bg);
    }

    .toggle-field label {
      color: var(--danger-text);
    }

    .toggle-field input {
      width: 22px;
      min-height: 22px;
      accent-color: var(--danger);
    }

    .empty, .status {
      color: var(--muted);
      padding: 22px;
      text-align: center;
    }

    .graph-wrap .empty {
      min-height: 380px;
      display: grid;
      place-items: center;
      padding: 0 18px;
      color: rgba(170, 164, 154, 0.34);
      font-size: 3rem;
      font-weight: 800;
      letter-spacing: 0.08em;
      text-shadow: 0 0 18px rgba(170, 164, 154, 0.035);
    }

    .graph-wrap .graph-error {
      min-height: 380px;
      display: grid;
      align-content: center;
      justify-items: center;
      gap: 10px;
      padding: 24px;
      color: #ffd6df;
      text-align: center;
      border: 1px solid var(--danger-line);
      border-radius: 8px;
      background: var(--danger-bg);
    }

    .graph-error strong {
      font-size: 1rem;
      letter-spacing: 0;
    }

    .graph-error span {
      max-width: 34rem;
      color: var(--danger-text);
      line-height: 1.35;
    }

    .toast {
      position: fixed;
      left: 16px;
      right: 16px;
      bottom: max(16px, env(safe-area-inset-bottom));
      z-index: 5;
      display: none;
      max-width: 720px;
      margin: 0 auto;
      padding: 12px 14px;
      border-radius: 8px;
      background: #262b32;
      border: 1px solid var(--line);
      box-shadow: var(--shadow);
      color: var(--text);
    }

    .toast.is-visible { display: block; }
    .toast.is-error { border-color: rgba(255, 77, 109, 0.68); color: #ffd6df; }

    @media (max-width: 820px) {
      .app { padding-inline: 12px; }
      .primary-layout {
        grid-template-columns: 1fr;
        align-items: start;
      }
      .control-panel {
        position: static;
        box-shadow: none;
      }
      .section-title { padding: 0 12px; }
      .section-body,
      .control-section:first-child .section-body,
      .control-section + .control-section .section-body {
        padding: 14px 12px;
      }
      .prediction .grind { font-size: 2.8rem; }
      .graph-panel { min-height: 0; }
      .graph-panel { grid-template-rows: auto auto; }
      .graph-body {
        grid-template-columns: 1fr;
        height: auto;
      }
      .graph-legend {
        gap: 7px 10px;
        min-height: 0;
        padding: 8px 10px 2px;
      }
      .graph-wrap { padding: 6px; }
      .graph-wrap svg {
        height: auto;
        min-height: 0;
      }
      .samples {
        max-height: 180px;
        min-height: 0;
        padding-inline: 12px;
        border-left: 0;
        border-top: 1px solid var(--line);
      }
    }

    @media (max-width: 520px) {
      .row {
        grid-template-columns: 1fr;
      }
      .field.inline-setting {
        grid-template-columns: auto minmax(4.5rem, 6rem);
      }
      .prediction {
        grid-template-columns: 1fr;
      }
      .prediction .target {
        text-align: left;
      }
      .graph-head {
        display: grid;
        min-height: 0;
        padding: 12px 16px;
      }
      .graph-meta {
        justify-content: space-between;
        text-align: left;
      }
      .button, input, select {
        min-height: 54px;
      }
      dialog.modal {
        width: min(440px, calc(100vw - 20px));
        top: max(36px, env(safe-area-inset-top));
        max-height: calc(100dvh - max(36px, env(safe-area-inset-top)) - 12px);
      }
    }
  </style>
</head>
<body>
  <main class="app">
    <section class="primary-layout">
      <div class="panel control-panel">
        <section class="control-section">
          <div class="section-title">
            <h2>Recipe</h2>
          </div>
          <div class="section-body">
            <div class="field">
              <select id="recipeSelect" aria-label="Recipe"></select>
            </div>

            <div class="recipe-actions">
              <button class="button goal-action" id="toggleRecipeButton" type="button">
                <svg viewBox="0 0 24 24" fill="none" stroke-width="2" stroke-linecap="round" stroke-linejoin="round" aria-hidden="true">
                  <rect width="8" height="4" x="8" y="2" rx="1" ry="1"/>
                  <path d="M16 4h2a2 2 0 0 1 2 2v14a2 2 0 0 1-2 2H6a2 2 0 0 1-2-2V6a2 2 0 0 1 2-2h2"/>
                  <path d="M9 14h6"/>
                  <path d="M12 11v6"/>
                </svg>
                <span>New Recipe</span>
              </button>
              <button class="icon-button danger recipe-delete" id="deleteRecipeButton" type="button" aria-label="Delete recipe">
                <svg viewBox="0 0 24 24" fill="none" stroke-width="2" stroke-linecap="round" stroke-linejoin="round" aria-hidden="true">
                  <path d="M3 6h18"/>
                  <path d="M8 6V4h8v2"/>
                  <path d="M19 6l-1 14H6L5 6"/>
                  <path d="M10 11v5"/>
                  <path d="M14 11v5"/>
                </svg>
              </button>
            </div>
          </div>
        </section>

        <section class="control-section">
          <div class="section-title">
            <h2>Shot</h2>
          </div>

          <div class="section-body">
            <div class="field inline-setting">
              <label for="targetTime">
                <svg viewBox="0 0 24 24" fill="none" stroke-width="2" stroke-linecap="round" stroke-linejoin="round" aria-hidden="true">
                  <line x1="10" x2="14" y1="2" y2="2"/>
                  <line x1="12" x2="15" y1="14" y2="11"/>
                  <circle cx="12" cy="14" r="8"/>
                </svg>
                <span>Target</span>
              </label>
              <input id="targetTime" inputmode="decimal" value="30" autocomplete="off">
            </div>

            <div class="prediction" id="predictionBox">
              <div>
                <div class="label">Linear grind</div>
                <div class="grind" id="predictedGrind">--</div>
                <div class="curve-grind" id="curveGrind">Curve --</div>
              </div>
              <div class="target" id="targetMeta">30s</div>
            </div>
          </div>
        </section>
      </div>

      <div class="panel graph-panel">
        <div class="graph-head">
          <h2 id="graphTitle">Shot graph</h2>
          <div class="graph-meta">
            <div class="shot-meter" id="shotMeter" aria-label="No shots logged">
              <span class="shot-notches" aria-hidden="true">
                <span class="shot-notch"></span>
                <span class="shot-notch"></span>
                <span class="shot-notch"></span>
                <span class="shot-notch"></span>
                <span class="shot-notch"></span>
                <span class="shot-notch"></span>
              </span>
              <span id="shotMeterText">0 shots</span>
            </div>
            <button class="icon-button refresh" id="refreshButton" type="button" aria-label="Refresh graph">
              <svg viewBox="0 0 24 24" fill="none" stroke-width="2" stroke-linecap="round" stroke-linejoin="round" aria-hidden="true">
                <path d="M3 12a9 9 0 0 1 15.74-5.74L21 8"/>
                <path d="M21 3v5h-5"/>
                <path d="M21 12a9 9 0 0 1-15.74 5.74L3 16"/>
                <path d="M3 21v-5h5"/>
              </svg>
            </button>
          </div>
        </div>
        <div class="graph-body">
          <div class="graph-main">
            <div class="graph-legend" aria-label="Graph legend">
              <span class="legend-item"><span class="legend-line is-solid"></span> Linear</span>
              <span class="legend-item"><span class="legend-line is-dotted"></span> Curve</span>
              <span class="legend-item"><span class="legend-line is-target"></span> Target</span>
              <span class="legend-item"><span class="legend-dot is-model"></span> Model shots</span>
              <span class="legend-item"><span class="legend-dot is-sample"></span> Other shots</span>
              <span class="legend-item"><span class="legend-zone"></span> Choke</span>
            </div>
            <div class="graph-wrap" id="graphWrap">
              <div class="empty">--</div>
            </div>
          </div>
          <div class="samples">
            <div class="samples-head">
              <div class="meta" id="sampleMeta"></div>
              <button class="icon-button add-sample-button" id="openSampleButton" type="button" aria-label="Add shot">
                <svg viewBox="0 0 24 24" fill="none" stroke-width="2.4" stroke-linecap="round" stroke-linejoin="round" aria-hidden="true">
                  <path d="M12 5v14"/>
                  <path d="M5 12h14"/>
                </svg>
              </button>
            </div>
            <div class="sample-list-head" aria-hidden="true">
              <span>Time</span>
              <span>Grind</span>
              <span></span>
            </div>
            <div class="sample-list" id="sampleList"></div>
          </div>
        </div>
      </div>
    </section>
  </main>
  <dialog class="modal" id="recipeDialog">
    <div class="modal-head">
      <h2>New Recipe</h2>
      <button class="icon-button" type="button" data-close-dialog="recipeDialog" aria-label="Close recipe dialog">
        <svg viewBox="0 0 24 24" fill="none" stroke-width="2" stroke-linecap="round" stroke-linejoin="round" aria-hidden="true">
          <path d="M18 6L6 18"/>
          <path d="M6 6l12 12"/>
        </svg>
      </button>
    </div>
    <form id="recipeForm" class="modal-form" method="dialog">
      <div class="field">
        <label for="recipeName">Recipe name</label>
        <input id="recipeName" name="recipe" autocomplete="off" required>
      </div>
      <div class="row">
        <div class="field">
          <label for="recipeDose">Dose grams</label>
          <input id="recipeDose" name="dose" inputmode="decimal" autocomplete="off" required>
        </div>
        <div class="field">
          <label for="recipeShotWeight">Shot grams</label>
          <input id="recipeShotWeight" name="shot_weight" inputmode="decimal" autocomplete="off" required>
        </div>
      </div>
      <button class="button goal-action" type="submit">
        <svg viewBox="0 0 24 24" fill="none" stroke-width="2" stroke-linecap="round" stroke-linejoin="round" aria-hidden="true">
          <rect width="8" height="4" x="8" y="2" rx="1" ry="1"/>
          <path d="M16 4h2a2 2 0 0 1 2 2v14a2 2 0 0 1-2 2H6a2 2 0 0 1-2-2V6a2 2 0 0 1 2-2h2"/>
          <path d="M9 14h6"/>
          <path d="M12 11v6"/>
        </svg>
        <span>Create Recipe</span>
      </button>
    </form>
  </dialog>
  <dialog class="modal" id="sampleDialog">
    <div class="modal-head">
      <h2>Add Shot</h2>
      <button class="icon-button" type="button" data-close-dialog="sampleDialog" aria-label="Close shot dialog">
        <svg viewBox="0 0 24 24" fill="none" stroke-width="2" stroke-linecap="round" stroke-linejoin="round" aria-hidden="true">
          <path d="M18 6L6 18"/>
          <path d="M6 6l12 12"/>
        </svg>
      </button>
    </div>
    <form id="sampleForm" class="modal-form" method="dialog">
      <div class="field">
        <label for="shotTime">Shot time</label>
        <input id="shotTime" name="time" inputmode="decimal" autocomplete="off" required>
      </div>
      <div class="toggle-field">
        <label for="chokedShot">Choked</label>
        <input id="chokedShot" name="choked" type="checkbox" value="1">
      </div>
      <div class="field manual-grind-field" id="manualGrindField">
        <label for="grind">Grind</label>
        <input id="grind" name="grind" inputmode="decimal" autocomplete="off" required>
      </div>
      <div class="field model-choice-field" id="modelChoiceField">
        <label>Grind model</label>
        <div class="model-choice-buttons">
          <button class="icon-button model-choice-button linear-model" id="linearModelButton" type="button" data-model="linear">
            <span class="model-label">Linear</span>
            <span class="model-value" id="linearModelValue">--</span>
          </button>
          <button class="icon-button model-choice-button curve-model" id="curveModelButton" type="button" data-model="curve">
            <span class="model-label">Curve</span>
            <span class="model-value" id="curveModelValue">--</span>
          </button>
        </div>
      </div>
      <button class="button sample-action" type="submit">
        <svg viewBox="0 0 24 24" fill="none" stroke-width="2" stroke-linecap="round" stroke-linejoin="round" aria-hidden="true">
          <path d="M6 2v2"/>
          <path d="M10 2v2"/>
          <path d="M14 2v2"/>
          <path d="M16 8a1 1 0 0 1 1 1v8a4 4 0 0 1-4 4H7a4 4 0 0 1-4-4V9a1 1 0 0 1 1-1h14a4 4 0 1 1 0 8h-1"/>
        </svg>
        <span>Add Shot</span>
      </button>
    </form>
  </dialog>
  <div class="toast" id="toast"></div>

  <script>
    const state = { selectedRecipe: "", targetTime: "30", recipes: [] };

    const els = {
      recipeSelect: document.querySelector("#recipeSelect"),
      targetTime: document.querySelector("#targetTime"),
      predictedGrind: document.querySelector("#predictedGrind"),
      curveGrind: document.querySelector("#curveGrind"),
      predictionBox: document.querySelector("#predictionBox"),
      targetMeta: document.querySelector("#targetMeta"),
      shotTime: document.querySelector("#shotTime"),
      chokedShot: document.querySelector("#chokedShot"),
      grind: document.querySelector("#grind"),
      graphWrap: document.querySelector("#graphWrap"),
      graphTitle: document.querySelector("#graphTitle"),
      sampleMeta: document.querySelector("#sampleMeta"),
      sampleList: document.querySelector("#sampleList"),
      sampleForm: document.querySelector("#sampleForm"),
      recipeForm: document.querySelector("#recipeForm"),
      sampleDialog: document.querySelector("#sampleDialog"),
      recipeDialog: document.querySelector("#recipeDialog"),
      linearModelButton: document.querySelector("#linearModelButton"),
      curveModelButton: document.querySelector("#curveModelButton"),
      linearModelValue: document.querySelector("#linearModelValue"),
      curveModelValue: document.querySelector("#curveModelValue"),
      openSampleButton: document.querySelector("#openSampleButton"),
      shotMeter: document.querySelector("#shotMeter"),
      shotMeterText: document.querySelector("#shotMeterText"),
      deleteRecipeButton: document.querySelector("#deleteRecipeButton"),
      toast: document.querySelector("#toast")
    };

    function params(values) {
      return new URLSearchParams(values);
    }

    async function api(path, options = {}) {
      const response = await fetch(path, options);
      const data = await response.json();
      if (!response.ok || data.error) {
        throw new Error(data.error || "Request failed");
      }
      return data;
    }

    async function loadState() {
      const query = params({ recipe: state.selectedRecipe, time: els.targetTime.value || state.targetTime });
      const data = await api(`/api/state?${query}`);
      render(data);
    }

    function render(data) {
      state.recipes = data.recipes;
      state.selectedRecipe = data.selected_recipe || "";
      state.targetTime = data.target_time;

      els.recipeSelect.innerHTML = "";
      for (const recipe of data.recipes) {
        const option = document.createElement("option");
        option.value = recipe.name;
        option.textContent = `${recipe.name}, Dose: ${grams(recipe.dose_weight_g)}, Out: ${grams(recipe.shot_weight_g)}`;
        option.selected = recipe.name === state.selectedRecipe;
        els.recipeSelect.append(option);
      }

      const recipe = data.recipes.find(item => item.name === state.selectedRecipe);
      els.targetTime.value = Math.round(Number(data.target_time));
      els.graphTitle.textContent = recipe ? recipe.name : "Shot graph";
      renderShotMeter(recipe);
      els.deleteRecipeButton.disabled = !recipe;
      els.openSampleButton.disabled = !recipe;

      const prediction = data.prediction;
      if (prediction && prediction.grind !== null) {
        els.predictedGrind.textContent = Number(prediction.grind).toFixed(2);
        els.curveGrind.textContent = prediction.curve_grind !== null
          ? `Curve ${Number(prediction.curve_grind).toFixed(2)}`
          : "Curve --";
        els.predictionBox.dataset.predictedGrind = Number(prediction.grind).toFixed(2);
        els.predictionBox.dataset.curveGrind = prediction.curve_grind !== null
          ? Number(prediction.curve_grind).toFixed(2)
          : "";
        els.predictionBox.classList.add("is-actionable");
        els.targetMeta.textContent = `${Math.round(Number(prediction.target_seconds))}s target`;
        els.graphWrap.innerHTML = prediction.graph_svg;
      } else {
        els.predictedGrind.textContent = "--";
        els.curveGrind.textContent = "Curve --";
        els.predictionBox.dataset.predictedGrind = "";
        els.predictionBox.dataset.curveGrind = "";
        els.predictionBox.classList.remove("is-actionable");
        els.targetMeta.textContent = `${Math.round(Number(data.target_time))}s target`;
        if (prediction?.graph_error) {
          els.graphWrap.innerHTML = `<div class="graph-error"><strong>Graph unavailable</strong><span>${escapeHtml(prediction.graph_error)}</span></div>`;
        } else {
          els.graphWrap.innerHTML = `<div class="empty">--</div>`;
        }
      }

      renderSamples(recipe);
    }

    function renderShotMeter(recipe) {
      const count = recipe ? Number(recipe.sample_count) : 0;
      const filled = Math.min(count, 6);
      const label = count === 1 ? "1 shot" : `${count} shots`;
      els.shotMeterText.textContent = label;
      els.shotMeter.setAttribute("aria-label", `${label} logged`);
      els.shotMeter.classList.toggle("is-hidden", !recipe);
      els.shotMeter.classList.toggle("is-empty", count === 0);
      els.shotMeter.querySelectorAll(".shot-notch").forEach((notch, index) => {
        notch.classList.toggle("is-filled", index < filled);
      });
    }

    function renderSamples(recipe) {
      els.sampleList.innerHTML = "";
      if (!recipe) {
        els.sampleMeta.textContent = "";
        return;
      }
      const sampleCount = Number(recipe.sample_count);
      els.sampleMeta.textContent = sampleCount === 1 ? "1 logged shot" : `${sampleCount} logged shots`;
      if (sampleCount === 0) {
        els.sampleList.innerHTML = `<div class="empty">No shots yet</div>`;
        return;
      }
      for (const sample of [...recipe.samples].reverse()) {
        const row = document.createElement("div");
        const timeLabel = sample.choked ? "Choked" : sample.time;
        row.className = sample.choked ? "sample is-choked" : "sample";
        row.innerHTML = `<span class="sample-cell"><svg viewBox="0 0 24 24" fill="none" stroke-width="2" stroke-linecap="round" stroke-linejoin="round" aria-hidden="true"><line x1="10" x2="14" y1="2" y2="2"/><line x1="12" x2="15" y1="14" y2="11"/><circle cx="12" cy="14" r="8"/></svg><span>${escapeHtml(timeLabel)}</span></span><span class="sample-cell"><svg viewBox="0 0 24 24" fill="none" stroke-width="2" stroke-linecap="round" stroke-linejoin="round" aria-hidden="true"><path d="M3.34 19a10 10 0 1 1 17.32 0"/><path d="m12 14 4-4"/></svg><span>${escapeHtml(sample.grind)}</span></span><button class="icon-button danger delete-sample" type="button" data-sample-index="${sample.index}" data-sample-label="${escapeHtml(`${timeLabel} at grind ${sample.grind}`)}" aria-label="Delete shot"><svg viewBox="0 0 24 24" fill="none" stroke-width="2" stroke-linecap="round" stroke-linejoin="round" aria-hidden="true"><path d="M3 6h18"/><path d="M8 6V4h8v2"/><path d="M19 6l-1 14H6L5 6"/><path d="M10 11v5"/><path d="M14 11v5"/></svg></button>`;
        els.sampleList.append(row);
      }
    }

    function escapeHtml(value) {
      return String(value).replace(/[&<>"']/g, character => ({
        "&": "&amp;",
        "<": "&lt;",
        ">": "&gt;",
        '"': "&quot;",
        "'": "&#039;"
      }[character]));
    }

    function grams(value) {
      const text = String(value || "").trim();
      return text.endsWith("g") ? text : `${text}g`;
    }

    function showToast(message, isError = false) {
      els.toast.textContent = message;
      els.toast.className = `toast is-visible${isError ? " is-error" : ""}`;
      clearTimeout(showToast.timeout);
      showToast.timeout = setTimeout(() => {
        els.toast.className = "toast";
      }, 2600);
    }

    function openDialog(dialog, focusTarget) {
      if (!dialog.open) {
        dialog.showModal();
      }
      requestAnimationFrame(() => focusTarget?.focus());
    }

    function fillPredictedGrind() {
      const predictedGrind = els.predictionBox.dataset.predictedGrind;
      if (!predictedGrind) {
        return false;
      }
      els.grind.value = predictedGrind;
      return true;
    }

    function resetModelChoice() {
      els.linearModelButton.classList.remove("is-selected");
      els.curveModelButton.classList.remove("is-selected");
      els.linearModelButton.setAttribute("aria-pressed", "false");
      els.curveModelButton.setAttribute("aria-pressed", "false");
    }

    function syncChokedShot() {
      const choked = els.chokedShot.checked;
      els.shotTime.required = !choked;
      els.shotTime.disabled = choked;
      if (choked) {
        els.shotTime.value = "";
      }
    }

    function openManualSampleDialog() {
      els.sampleForm.classList.remove("is-model-choice");
      els.chokedShot.checked = false;
      syncChokedShot();
      els.grind.required = true;
      resetModelChoice();
      fillPredictedGrind();
      openDialog(els.sampleDialog, els.shotTime);
    }

    function openModelChoiceSampleDialog() {
      const linearGrind = els.predictionBox.dataset.predictedGrind;
      const curveGrind = els.predictionBox.dataset.curveGrind;
      if (!linearGrind) {
        return false;
      }

      els.sampleForm.reset();
      syncChokedShot();
      els.grind.required = false;
      els.grind.value = "";
      resetModelChoice();
      els.sampleForm.classList.add("is-model-choice");
      els.linearModelButton.dataset.grind = linearGrind;
      els.curveModelButton.dataset.grind = curveGrind || "";
      els.linearModelValue.textContent = linearGrind;
      els.curveModelValue.textContent = curveGrind || "--";
      els.curveModelButton.disabled = !curveGrind;
      openDialog(els.sampleDialog, els.shotTime);
      return true;
    }

    function chooseModelGrind(button) {
      const grind = button.dataset.grind;
      if (!grind) {
        return;
      }
      els.grind.value = grind;
      resetModelChoice();
      button.classList.add("is-selected");
      button.setAttribute("aria-pressed", "true");
    }

    els.recipeSelect.addEventListener("change", () => {
      state.selectedRecipe = els.recipeSelect.value;
      loadState().catch(error => showToast(error.message, true));
    });

    els.targetTime.addEventListener("change", () => {
      loadState().catch(error => showToast(error.message, true));
    });

    document.querySelector("#refreshButton").addEventListener("click", () => {
      loadState().catch(error => showToast(error.message, true));
    });

    els.predictionBox.addEventListener("click", () => {
      if (!openModelChoiceSampleDialog()) {
        return;
      }
    });

    document.querySelector("#toggleRecipeButton").addEventListener("click", () => {
      openDialog(els.recipeDialog, document.querySelector("#recipeName"));
    });

    els.openSampleButton.addEventListener("click", () => {
      openManualSampleDialog();
    });

    els.linearModelButton.addEventListener("click", () => chooseModelGrind(els.linearModelButton));
    els.curveModelButton.addEventListener("click", () => chooseModelGrind(els.curveModelButton));
    els.chokedShot.addEventListener("change", syncChokedShot);

    document.querySelectorAll("[data-close-dialog]").forEach(button => {
      button.addEventListener("click", () => {
        document.querySelector(`#${button.dataset.closeDialog}`)?.close();
      });
    });

    els.deleteRecipeButton.addEventListener("click", async () => {
      if (!state.selectedRecipe) {
        return;
      }
      if (!confirm(`Delete recipe "${state.selectedRecipe}" and all of its shots?`)) {
        return;
      }
      try {
        const data = await api("/api/recipes/delete", {
          method: "POST",
          headers: { "Content-Type": "application/x-www-form-urlencoded" },
          body: params({ recipe: state.selectedRecipe, target_time: els.targetTime.value })
        });
        render(data);
        showToast("Recipe deleted");
      } catch (error) {
        showToast(error.message, true);
      }
    });

    els.sampleList.addEventListener("click", async event => {
      const button = event.target.closest(".delete-sample");
      if (!button) {
        return;
      }
      const label = button.dataset.sampleLabel || "this shot";
      if (!confirm(`Delete shot ${label}?`)) {
        return;
      }
      try {
        const data = await api("/api/samples/delete", {
          method: "POST",
          headers: { "Content-Type": "application/x-www-form-urlencoded" },
          body: params({
            recipe: state.selectedRecipe,
            sample_index: button.dataset.sampleIndex,
            target_time: els.targetTime.value
          })
        });
        render(data);
        showToast("Shot deleted");
      } catch (error) {
        showToast(error.message, true);
      }
    });

    els.sampleForm.addEventListener("submit", async event => {
      event.preventDefault();
      if (els.sampleForm.classList.contains("is-model-choice") && !els.grind.value) {
        showToast("Choose Linear or Curve grind", true);
        return;
      }
      try {
        const body = params({
          recipe: state.selectedRecipe,
          time: els.shotTime.value,
          grind: els.grind.value,
          choked: els.chokedShot.checked ? "1" : "0",
          target_time: els.targetTime.value
        });
        const data = await api("/api/samples", {
          method: "POST",
          headers: { "Content-Type": "application/x-www-form-urlencoded" },
          body
        });
        event.target.reset();
        syncChokedShot();
        els.sampleForm.classList.remove("is-model-choice");
        els.grind.required = true;
        resetModelChoice();
        els.sampleDialog.close();
        render(data);
        showToast("Shot added");
      } catch (error) {
        showToast(error.message, true);
      }
    });

    els.recipeForm.addEventListener("submit", async event => {
      event.preventDefault();
      try {
        const form = new FormData(event.target);
        const data = await api("/api/recipes", {
          method: "POST",
          headers: { "Content-Type": "application/x-www-form-urlencoded" },
          body: params({ recipe: form.get("recipe"), dose: form.get("dose"), shot_weight: form.get("shot_weight") })
        });
        event.target.reset();
        els.recipeDialog.close();
        render(data);
        showToast("Recipe created");
      } catch (error) {
        showToast(error.message, true);
      }
    });

    loadState().catch(error => showToast(error.message, true));
  </script>
</body>
</html>
"###@
}

/// The single-page web app the server hands out: markup, style and the
/// script that talks to the server's JSON API.
pub fn web_app_html() -> (r: &'static str)
    ensures
        r@ == web_app_page(),
{
    r###"<!doctype html>
<html lang="en">
<head>
  <meta charset="utf-8">
  <meta name="viewport" content="width=device-width, initial-scale=1, viewport-fit=cover">
  <title>Coffee Dial-In</title>
  <style>
    :root {
      color-scheme: dark;
      --bg: #0d0f12;
      --panel: #181b20;
      --panel-2: #20252c;
      --text: #f5f1e8;
      --muted: #aaa49a;
      --line: #343a42;
      --add: #d7b84f;
      --goal: #a6e22e;
      --goal-bg: rgba(166, 226, 46, 0.14);
      --goal-line: rgba(166, 226, 46, 0.46);
      --danger: #ff4d6d;
      --danger-text: #ffb3c1;
      --danger-bg: rgba(255, 77, 109, 0.14);
      --danger-line: rgba(255, 77, 109, 0.58);
      --shadow: 0 22px 60px rgba(0, 0, 0, 0.34);
    }

    * { box-sizing: border-box; }
    html { min-height: 100%; background: var(--bg); }
    body {
      min-height: 100%;
      margin: 0;
      font-family: Inter, ui-sans-serif, system-ui, -apple-system, BlinkMacSystemFont, "Segoe UI", sans-serif;
      color: var(--text);
      background:
        linear-gradient(180deg, rgba(255, 255, 255, 0.032), transparent 9rem),
        linear-gradient(115deg, rgba(215, 184, 79, 0.048), rgba(215, 184, 79, 0.016) 28rem, transparent 44rem),
        repeating-linear-gradient(90deg, rgba(255, 255, 255, 0.014) 0 1px, transparent 1px 80px),
        repeating-linear-gradient(0deg, rgba(255, 255, 255, 0.01) 0 1px, transparent 1px 80px),
        linear-gradient(180deg, #15171b 0%, #0f1114 54%, #0b0c0f 100%);
    }

    button, input, select {
      font: inherit;
      color: inherit;
    }

    .app {
      width: min(1180px, 100%);
      min-height: 100dvh;
      margin: 0 auto;
      padding: max(18px, env(safe-area-inset-top)) 16px max(28px, env(safe-area-inset-bottom));
    }

    .meta {
      color: var(--muted);
      font-size: 0.88rem;
    }

    .primary-layout {
      display: grid;
      grid-template-columns: minmax(280px, 0.68fr) minmax(0, 1.55fr);
      gap: 16px;
      align-items: stretch;
    }

    .panel {
      background: color-mix(in srgb, var(--panel) 94%, black);
      border: 1px solid var(--line);
      border-radius: 8px;
      box-shadow: var(--shadow);
    }

    .control-panel {
      position: sticky;
      top: 14px;
      display: grid;
      gap: 10px;
      align-content: start;
      padding: 0;
      overflow: visible;
      background: transparent;
      border: 0;
      box-shadow: none;
    }

    .control-section {
      display: grid;
      grid-template-rows: 48px auto;
      align-content: start;
      gap: 0;
      padding: 0;
      background: color-mix(in srgb, var(--panel) 94%, black);
      border: 1px solid var(--line);
      border-radius: 8px;
      box-shadow: var(--shadow);
      overflow: hidden;
    }

    .control-section + .control-section {
      background:
        linear-gradient(rgba(255, 255, 255, 0.018), rgba(255, 255, 255, 0.018)),
        color-mix(in srgb, var(--panel) 94%, black);
    }

    .section-title {
      display: flex;
      align-items: center;
      justify-content: space-between;
      gap: 12px;
      min-height: 48px;
      padding: 0 15px;
      border-bottom: 1px solid var(--line);
      background: rgba(255, 255, 255, 0.026);
    }

    .section-title h2 {
      margin: 0;
      font-size: 1.05rem;
      line-height: 1.15;
      letter-spacing: 0;
    }

    .section-title span {
      color: var(--muted);
      font-size: 0.82rem;
    }

    .section-body {
      display: grid;
      gap: 14px;
      padding: 15px;
    }

    .field {
      display: grid;
      gap: 7px;
    }

    .field.inline-setting {
      grid-template-columns: auto minmax(4.5rem, 6rem);
      justify-content: space-between;
      align-items: center;
      gap: 12px;
      min-height: 50px;
      border: 1px solid var(--line);
      border-radius: 8px;
      background:
        linear-gradient(90deg, rgba(166, 226, 46, 0.035), transparent 42%),
        var(--panel-2);
      padding: 0 12px 0 13px;
    }

    .field.inline-setting label {
      display: inline-flex;
      align-items: center;
      gap: 6px;
      white-space: nowrap;
      font-size: 0.98rem;
      font-weight: 900;
      color: #c9c5b9;
    }

    .field.inline-setting label svg {
      width: 20px;
      height: 20px;
      color: #d9d6cc;
      stroke: currentColor;
      flex: 0 0 auto;
    }

    .field.inline-setting input {
      width: 6rem;
      min-height: 38px;
      border-color: transparent;
      background: transparent;
      text-align: center;
      font-size: 2rem;
      font-weight: 500;
      color: #f8fafc;
      padding: 6px 4px;
    }

    .field.inline-setting input:focus {
      border-color: var(--goal);
      box-shadow: 0 0 0 3px var(--goal-bg);
    }

    label {
      color: var(--muted);
      font-size: 0.78rem;
      font-weight: 700;
      text-transform: uppercase;
      letter-spacing: 0.08em;
    }

    input, select {
      width: 100%;
      min-height: 50px;
      border: 1px solid var(--line);
      border-radius: 8px;
      background: var(--panel-2);
      padding: 12px 13px;
      outline: none;
    }

    select {
      padding-right: 42px;
      background-clip: padding-box;
    }

    input:focus, select:focus {
      border-color: var(--add);
      box-shadow: 0 0 0 3px rgba(215, 184, 79, 0.18);
    }

    .row {
      display: grid;
      grid-template-columns: 1fr 1fr;
      gap: 10px;
    }

    .button {
      display: inline-flex;
      align-items: center;
      justify-content: center;
      gap: 8px;
      min-height: 50px;
      border: 0;
      border-radius: 8px;
      background: var(--add);
      color: #102018;
      font-weight: 800;
      padding: 0 16px;
      cursor: pointer;
      touch-action: manipulation;
      position: relative;
      overflow: hidden;
    }

    .button svg {
      width: 18px;
      height: 18px;
      stroke: currentColor;
      flex: 0 0 auto;
    }

    .button.secondary {
      background: #2c333b;
      color: var(--text);
      border: 1px solid var(--line);
    }

    .button.compact {
      min-height: 38px;
      padding: 0 12px;
      font-size: 0.88rem;
    }

    .button.goal-action,
    .button.sample-action {
      background:
        linear-gradient(180deg, rgba(234, 255, 183, 0.09), rgba(166, 226, 46, 0.08) 42%, rgba(166, 226, 46, 0.16)),
        rgba(18, 28, 18, 0.92);
      color: #eaffb7;
      border: 1px solid rgba(166, 226, 46, 0.72);
      box-shadow:
        inset 0 1px 0 rgba(234, 255, 183, 0.16),
        inset 0 -1px 0 rgba(0, 0, 0, 0.22),
        0 9px 20px rgba(0, 0, 0, 0.26);
    }

    .button:not(:disabled)::after,
    .icon-button:not(:disabled)::after {
      content: "";
      position: absolute;
      inset: 0;
      transform: translateX(-135%);
      background: linear-gradient(
        110deg,
        transparent 0%,
        transparent 36%,
        rgba(217, 249, 157, 0.06) 45%,
        rgba(217, 249, 157, 0.18) 50%,
        rgba(217, 249, 157, 0.06) 55%,
        transparent 64%,
        transparent 100%
      );
      pointer-events: none;
      animation: button-shimmer 7.5s ease-in-out infinite;
    }

    .button > *,
    .icon-button > * {
      position: relative;
      z-index: 1;
    }

    .button.goal-action:hover,
    .button.goal-action:focus,
    .button.sample-action:hover,
    .button.sample-action:focus {
      background:
        linear-gradient(180deg, rgba(234, 255, 183, 0.14), rgba(166, 226, 46, 0.14) 42%, rgba(166, 226, 46, 0.22)),
        rgba(22, 35, 20, 0.96);
      border-color: rgba(166, 226, 46, 0.86);
      box-shadow:
        inset 0 1px 0 rgba(234, 255, 183, 0.22),
        inset 0 -1px 0 rgba(0, 0, 0, 0.22),
        0 0 0 3px var(--goal-bg),
        0 10px 22px rgba(0, 0, 0, 0.24);
    }

    .icon-button {
      display: inline-grid;
      place-items: center;
      width: 38px;
      height: 38px;
      border: 1px solid var(--line);
      border-radius: 8px;
      background: #2c333b;
      color: var(--muted);
      cursor: pointer;
      touch-action: manipulation;
      position: relative;
      overflow: hidden;
    }

    .icon-button.recipe-delete {
      width: 100%;
      height: auto;
      min-height: 50px;
    }

    .icon-button svg {
      width: 18px;
      height: 18px;
      stroke: currentColor;
    }

    .icon-button.danger:hover,
    .icon-button.danger:focus {
      color: #ffd6df;
      border-color: rgba(255, 77, 109, 0.78);
      background: rgba(255, 77, 109, 0.18);
    }

    .icon-button.danger {
      color: var(--danger-text);
      border-color: var(--danger-line);
      background: var(--danger-bg);
    }

    .icon-button.refresh {
      color: #d9f99d;
      border-color: rgba(166, 226, 46, 0.45);
      background: rgba(72, 104, 31, 0.45);
    }

    .icon-button.refresh:hover,
    .icon-button.refresh:focus {
      color: #f0ffd0;
      border-color: rgba(166, 226, 46, 0.72);
      background: rgba(91, 133, 37, 0.58);
      box-shadow: 0 0 0 3px var(--goal-bg);
    }

    .icon-button:disabled {
      opacity: 0.45;
      cursor: not-allowed;
    }

    .button:active { transform: translateY(1px); }

    @keyframes button-shimmer {
      0%, 68% {
        transform: translateX(-135%);
      }
      82%, 100% {
        transform: translateX(135%);
      }
    }

    @media (prefers-reduced-motion: reduce) {
      .button::after,
      .icon-button::after {
        animation: none;
        display: none;
      }
    }

    .row > .button {
      align-self: end;
    }

    .modal-form > .button,
    #sampleForm > .button {
      grid-column: 1 / -1;
    }

    .recipe-actions {
      display: grid;
      grid-template-columns: 3fr 1fr;
      gap: 10px;
      align-items: stretch;
    }

    .recipe-actions > .button,
    .recipe-actions > .icon-button {
      height: 100%;
    }

    .shot-actions {
      display: grid;
      margin-top: 4px;
    }

    .add-sample-button {
      width: 38px;
      height: 38px;
      color: #eaffb7;
      border-color: rgba(166, 226, 46, 0.72);
      background:
        linear-gradient(180deg, rgba(234, 255, 183, 0.09), rgba(166, 226, 46, 0.08) 42%, rgba(166, 226, 46, 0.16)),
        rgba(18, 28, 18, 0.92);
    }

    .add-sample-button:hover,
    .add-sample-button:focus {
      color: #f0ffd0;
      border-color: rgba(166, 226, 46, 0.86);
      background:
        linear-gradient(180deg, rgba(234, 255, 183, 0.14), rgba(166, 226, 46, 0.14) 42%, rgba(166, 226, 46, 0.22)),
        rgba(22, 35, 20, 0.96);
      box-shadow: 0 0 0 3px var(--goal-bg);
    }

    .prediction {
      display: grid;
      grid-template-columns: 1fr auto;
      gap: 12px;
      align-items: end;
      padding: 16px;
      background: linear-gradient(135deg, rgba(166, 226, 46, 0.14), #191f20);
      border: 1px solid var(--goal-line);
      border-radius: 8px;
      cursor: default;
    }

    .prediction.is-actionable {
      cursor: pointer;
    }

    .prediction.is-actionable:hover,
    .prediction.is-actionable:focus-within {
      border-color: rgba(166, 226, 46, 0.72);
      box-shadow: 0 0 0 3px var(--goal-bg);
    }

    .prediction .label {
      color: var(--muted);
      font-size: 0.78rem;
      font-weight: 800;
      text-transform: uppercase;
      letter-spacing: 0.08em;
    }

    .prediction .grind {
      font-size: 3.2rem;
      line-height: 0.9;
      font-weight: 900;
      letter-spacing: 0;
    }

    .prediction .curve-grind {
      margin-top: 8px;
      color: #fbbf24;
      font-size: 1.02rem;
      font-weight: 900;
      letter-spacing: 0;
    }

    .prediction .target {
      color: var(--goal);
      font-weight: 800;
      text-align: right;
      white-space: nowrap;
    }

    .graph-panel {
      display: grid;
      grid-template-rows: auto minmax(0, 1fr);
      overflow: hidden;
      min-height: 100%;
    }

    .graph-head {
      display: flex;
      justify-content: space-between;
      gap: 18px;
      align-items: center;
      min-height: 48px;
      padding: 0 16px 0 18px;
      border-bottom: 1px solid var(--line);
      background: rgba(255, 255, 255, 0.026);
    }

    .graph-head h2 {
      margin: 0;
      font-size: 1.05rem;
      font-weight: 800;
      letter-spacing: 0;
    }

    .graph-meta {
      display: flex;
      align-items: center;
      justify-content: flex-end;
      gap: 14px;
      text-align: right;
    }

    .shot-meter {
      display: inline-flex;
      align-items: center;
      gap: 8px;
      min-height: 38px;
      padding: 0 10px;
      border: 1px solid var(--goal-line);
      border-radius: 8px;
      background: rgba(166, 226, 46, 0.08);
      color: #d9f99d;
      font-size: 0.92rem;
      font-weight: 800;
      text-transform: uppercase;
      white-space: nowrap;
    }

    .shot-meter.is-empty {
      border-color: rgba(166, 226, 46, 0.28);
      background: rgba(166, 226, 46, 0.045);
      color: rgba(217, 249, 157, 0.78);
    }

    .shot-meter.is-hidden {
      display: none;
    }

    .shot-notches {
      display: grid;
      grid-template-columns: repeat(6, 12px);
      gap: 4px;
      align-items: end;
      height: 18px;
    }

    .shot-notch {
      width: 12px;
      height: 8px;
      border-radius: 2px;
      background: rgba(166, 226, 46, 0.08);
      border: 1px solid rgba(166, 226, 46, 0.14);
    }

    .shot-notch:nth-child(2) { height: 10px; }
    .shot-notch:nth-child(3) { height: 12px; }
    .shot-notch:nth-child(4) { height: 14px; }
    .shot-notch:nth-child(5) { height: 16px; }
    .shot-notch:nth-child(6) { height: 18px; }

    .shot-notch.is-filled {
      background: var(--goal);
      border-color: rgba(166, 226, 46, 0.78);
      box-shadow: 0 0 10px rgba(166, 226, 46, 0.22);
    }

    .graph-body {
      display: grid;
      grid-template-columns: minmax(0, 1fr) minmax(220px, 260px);
      height: 560px;
      min-height: 0;
    }

    .graph-main {
      display: grid;
      grid-template-rows: auto minmax(0, 1fr);
      min-height: 0;
      background: #15181d;
    }

    .graph-legend {
      display: flex;
      flex-wrap: wrap;
      align-items: center;
      gap: 8px 14px;
      min-height: 38px;
      padding: 8px 12px 4px;
      color: var(--muted);
      font-size: 0.72rem;
      font-weight: 800;
      text-transform: uppercase;
      letter-spacing: 0.06em;
    }

    .legend-item {
      display: inline-flex;
      align-items: center;
      gap: 6px;
      white-space: nowrap;
    }

    .legend-line {
      width: 24px;
      height: 0;
      border-top: 3px solid currentColor;
      border-radius: 999px;
    }

    .legend-line.is-solid { color: #60a5fa; }
    .legend-line.is-dotted {
      width: 28px;
      border-top-style: dotted;
      color: #fbbf24;
    }
    .legend-line.is-target {
      width: 28px;
      border-top-style: dashed;
      color: #a6e22e;
    }

    .legend-dot {
      width: 10px;
      height: 10px;
      border-radius: 50%;
      background: currentColor;
      box-shadow: 0 0 0 2px #0f172a;
    }

    .legend-dot.is-sample { color: #64748b; }
    .legend-dot.is-model { color: #2dd4bf; }

    .legend-zone {
      width: 20px;
      height: 10px;
      border-left: 3px dotted var(--danger);
      background: rgba(255, 77, 109, 0.16);
    }

    .graph-wrap {
      min-height: 280px;
      padding: 8px 10px 10px;
      overflow: hidden;
      background:
        linear-gradient(180deg, rgba(255, 255, 255, 0.014), transparent 7rem),
        #15181d;
      display: grid;
      align-items: stretch;
    }

    .graph-wrap svg {
      display: block;
      width: 100%;
      height: 100%;
      min-height: 0;
      border-radius: 6px;
    }

    .samples {
      display: grid;
      gap: 8px;
      grid-template-rows: auto auto minmax(0, 1fr);
      min-height: 0;
      overflow: hidden;
      padding: 12px 16px 16px;
      border-left: 1px solid var(--line);
      background: rgba(13, 15, 18, 0.36);
    }

    .samples-head {
      display: flex;
      align-items: center;
      justify-content: space-between;
      gap: 10px;
      min-width: 0;
    }

    .sample-list-head,
    .sample-list {
      min-width: 0;
    }

    .sample-list-head {
      display: grid;
      grid-template-columns: minmax(0, 1fr) minmax(0, 1fr) 34px;
      gap: 10px;
      padding: 0 10px;
      color: var(--muted);
      font-size: 0.72rem;
      font-weight: 800;
      text-transform: uppercase;
      letter-spacing: 0.08em;
    }

    .sample-list {
      display: grid;
      align-content: start;
      gap: 6px;
      min-height: 0;
      overflow-y: auto;
      overflow-x: hidden;
      padding-right: 2px;
    }

    .sample {
      display: grid;
      grid-template-columns: minmax(0, 1fr) minmax(0, 1fr) 34px;
      align-items: center;
      gap: 10px;
      min-height: 38px;
      padding: 5px 6px 5px 10px;
      background: var(--panel-2);
      border: 1px solid var(--line);
      border-radius: 8px;
    }

    .sample-cell {
      display: inline-flex;
      align-items: center;
      gap: 7px;
      min-width: 0;
      color: var(--text);
      font-weight: 800;
      line-height: 1;
    }

    .sample-cell svg {
      width: 16px;
      height: 16px;
      flex: 0 0 auto;
      color: var(--muted);
      stroke: currentColor;
    }

    .sample-cell span {
      overflow: hidden;
      text-overflow: ellipsis;
      white-space: nowrap;
      min-width: 0;
    }

    .sample .icon-button {
      width: 34px;
      height: 34px;
    }

    .sample.is-choked {
      border-color: var(--danger-line);
      background:
        linear-gradient(rgba(255, 77, 109, 0.08), rgba(255, 77, 109, 0.08)),
        var(--panel-2);
    }

    .sample.is-choked .sample-cell:first-child {
      color: var(--danger-text);
    }

    dialog.modal {
      width: min(440px, calc(100vw - 24px));
      max-height: calc(100dvh - max(44px, env(safe-area-inset-top)) - 16px);
      border: 1px solid var(--line);
      border-radius: 8px;
      background: var(--panel);
      color: var(--text);
      padding: 0;
      box-shadow: var(--shadow);
      overflow: auto;
      position: fixed;
      top: max(44px, env(safe-area-inset-top));
      bottom: auto;
      left: 50%;
      right: auto;
      transform: translateX(-50%);
      margin: 0;
    }

    dialog.modal::backdrop {
      background: rgba(0, 0, 0, 0.58);
      backdrop-filter: blur(2px);
    }

    .modal-head {
      display: flex;
      align-items: center;
      justify-content: space-between;
      gap: 12px;
      padding: 14px 16px;
      border-bottom: 1px solid var(--line);
    }

    .modal-head h2 {
      margin: 0;
      font-size: 1rem;
      letter-spacing: 0;
    }

    .modal-form {
      display: grid;
      gap: 14px;
      padding: 16px;
    }

    .model-choice-field {
      display: none;
      gap: 10px;
    }

    .modal-form.is-model-choice .manual-grind-field {
      display: none;
    }

    .modal-form.is-model-choice .model-choice-field {
      display: grid;
    }

    .model-choice-buttons {
      display: grid;
      grid-template-columns: 1fr 1fr;
      gap: 10px;
    }

    .model-choice-button {
      display: grid;
      gap: 4px;
      justify-items: start;
      width: 100%;
      height: auto;
      min-height: 64px;
      padding: 10px 12px;
      color: #eaffb7;
      text-align: left;
      border-color: rgba(166, 226, 46, 0.48);
      background:
        linear-gradient(180deg, rgba(234, 255, 183, 0.06), rgba(166, 226, 46, 0.06)),
        rgba(18, 28, 18, 0.72);
    }

    .model-choice-button .model-label {
      color: var(--muted);
      font-size: 0.72rem;
      font-weight: 900;
      text-transform: uppercase;
      letter-spacing: 0.08em;
    }

    .model-choice-button .model-value {
      font-size: 1.35rem;
      font-weight: 900;
      line-height: 1;
      letter-spacing: 0;
    }

    .model-choice-button.is-selected {
      border-color: rgba(166, 226, 46, 0.88);
      box-shadow: 0 0 0 3px var(--goal-bg);
      background:
        linear-gradient(180deg, rgba(234, 255, 183, 0.14), rgba(166, 226, 46, 0.16)),
        rgba(22, 35, 20, 0.96);
    }

    .model-choice-button.curve-model {
      color: #fbbf24;
      border-color: rgba(251, 191, 36, 0.48);
      background:
        linear-gradient(180deg, rgba(251, 191, 36, 0.08), rgba(251, 191, 36, 0.04)),
        rgba(32, 25, 12, 0.8);
    }

    .model-choice-button.curve-model.is-selected {
      border-color: rgba(251, 191, 36, 0.88);
      box-shadow: 0 0 0 3px rgba(251, 191, 36, 0.16);
    }

    .toggle-field {
      display: flex;
      align-items: center;
      justify-content: space-between;
      gap: 12px;
      min-height: 48px;
      padding: 0 13px;
      border: 1px solid var(--danger-line);
      border-radius: 8px;
      background: var(--danger-bg);
    }

    .toggle-field label {
      color: var(--danger-text);
    }

    .toggle-field input {
      width: 22px;
      min-height: 22px;
      accent-color: var(--danger);
    }

    .empty, .status {
      color: var(--muted);
      padding: 22px;
      text-align: center;
    }

    .graph-wrap .empty {
      min-height: 380px;
      display: grid;
      place-items: center;
      padding: 0 18px;
      color: rgba(170, 164, 154, 0.34);
      font-size: 3rem;
      font-weight: 800;
      letter-spacing: 0.08em;
      text-shadow: 0 0 18px rgba(170, 164, 154, 0.035);
    }

    .graph-wrap .graph-error {
      min-height: 380px;
      display: grid;
      align-content: center;
      justify-items: center;
      gap: 10px;
      padding: 24px;
      color: #ffd6df;
      text-align: center;
      border: 1px solid var(--danger-line);
      border-radius: 8px;
      background: var(--danger-bg);
    }

    .graph-error strong {
      font-size: 1rem;
      letter-spacing: 0;
    }

    .graph-error span {
      max-width: 34rem;
      color: var(--danger-text);
      line-height: 1.35;
    }

    .toast {
      position: fixed;
      left: 16px;
      right: 16px;
      bottom: max(16px, env(safe-area-inset-bottom));
      z-index: 5;
      display: none;
      max-width: 720px;
      margin: 0 auto;
      padding: 12px 14px;
      border-radius: 8px;
      background: #262b32;
      border: 1px solid var(--line);
      box-shadow: var(--shadow);
      color: var(--text);
    }

    .toast.is-visible { display: block; }
    .toast.is-error { border-color: rgba(255, 77, 109, 0.68); color: #ffd6df; }

    @media (max-width: 820px) {
      .app { padding-inline: 12px; }
      .primary-layout {
        grid-template-columns: 1fr;
        align-items: start;
      }
      .control-panel {
        position: static;
        box-shadow: none;
      }
      .section-title { padding: 0 12px; }
      .section-body,
      .control-section:first-child .section-body,
      .control-section + .control-section .section-body {
        padding: 14px 12px;
      }
      .prediction .grind { font-size: 2.8rem; }
      .graph-panel { min-height: 0; }
      .graph-panel { grid-template-rows: auto auto; }
      .graph-body {
        grid-template-columns: 1fr;
        height: auto;
      }
      .graph-legend {
        gap: 7px 10px;
        min-height: 0;
        padding: 8px 10px 2px;
      }
      .graph-wrap { padding: 6px; }
      .graph-wrap svg {
        height: auto;
        min-height: 0;
      }
      .samples {
        max-height: 180px;
        min-height: 0;
        padding-inline: 12px;
        border-left: 0;
        border-top: 1px solid var(--line);
      }
    }

    @media (max-width: 520px) {
      .row {
        grid-template-columns: 1fr;
      }
      .field.inline-setting {
        grid-template-columns: auto minmax(4.5rem, 6rem);
      }
      .prediction {
        grid-template-columns: 1fr;
      }
      .prediction .target {
        text-align: left;
      }
      .graph-head {
        display: grid;
        min-height: 0;
        padding: 12px 16px;
      }
      .graph-meta {
        justify-content: space-between;
        text-align: left;
      }
      .button, input, select {
        min-height: 54px;
      }
      dialog.modal {
        width: min(440px, calc(100vw - 20px));
        top: max(36px, env(safe-area-inset-top));
        max-height: calc(100dvh - max(36px, env(safe-area-inset-top)) - 12px);
      }
    }
  </style>
</head>
<body>
  <main class="app">
    <section class="primary-layout">
      <div class="panel control-panel">
        <section class="control-section">
          <div class="section-title">
            <h2>Recipe</h2>
          </div>
          <div class="section-body">
            <div class="field">
              <select id="recipeSelect" aria-label="Recipe"></select>
            </div>

            <div class="recipe-actions">
              <button class="button goal-action" id="toggleRecipeButton" type="button">
                <svg viewBox="0 0 24 24" fill="none" stroke-width="2" stroke-linecap="round" stroke-linejoin="round" aria-hidden="true">
                  <rect width="8" height="4" x="8" y="2" rx="1" ry="1"/>
                  <path d="M16 4h2a2 2 0 0 1 2 2v14a2 2 0 0 1-2 2H6a2 2 0 0 1-2-2V6a2 2 0 0 1 2-2h2"/>
                  <path d="M9 14h6"/>
                  <path d="M12 11v6"/>
                </svg>
                <span>New Recipe</span>
              </button>
              <button class="icon-button danger recipe-delete" id="deleteRecipeButton" type="button" aria-label="Delete recipe">
                <svg viewBox="0 0 24 24" fill="none" stroke-width="2" stroke-linecap="round" stroke-linejoin="round" aria-hidden="true">
                  <path d="M3 6h18"/>
                  <path d="M8 6V4h8v2"/>
                  <path d="M19 6l-1 14H6L5 6"/>
                  <path d="M10 11v5"/>
                  <path d="M14 11v5"/>
                </svg>
              </button>
            </div>
          </div>
        </section>

        <section class="control-section">
          <div class="section-title">
            <h2>Shot</h2>
          </div>

          <div class="section-body">
            <div class="field inline-setting">
              <label for="targetTime">
                <svg viewBox="0 0 24 24" fill="none" stroke-width="2" stroke-linecap="round" stroke-linejoin="round" aria-hidden="true">
                  <line x1="10" x2="14" y1="2" y2="2"/>
                  <line x1="12" x2="15" y1="14" y2="11"/>
                  <circle cx="12" cy="14" r="8"/>
                </svg>
                <span>Target</span>
              </label>
              <input id="targetTime" inputmode="decimal" value="30" autocomplete="off">
            </div>

            <div class="prediction" id="predictionBox">
              <div>
                <div class="label">Linear grind</div>
                <div class="grind" id="predictedGrind">--</div>
                <div class="curve-grind" id="curveGrind">Curve --</div>
              </div>
              <div class="target" id="targetMeta">30s</div>
            </div>
          </div>
        </section>
      </div>

      <div class="panel graph-panel">
        <div class="graph-head">
          <h2 id="graphTitle">Shot graph</h2>
          <div class="graph-meta">
            <div class="shot-meter" id="shotMeter" aria-label="No shots logged">
              <span class="shot-notches" aria-hidden="true">
                <span class="shot-notch"></span>
                <span class="shot-notch"></span>
                <span class="shot-notch"></span>
                <span class="shot-notch"></span>
                <span class="shot-notch"></span>
                <span class="shot-notch"></span>
              </span>
              <span id="shotMeterText">0 shots</span>
            </div>
            <button class="icon-button refresh" id="refreshButton" type="button" aria-label="Refresh graph">
              <svg viewBox="0 0 24 24" fill="none" stroke-width="2" stroke-linecap="round" stroke-linejoin="round" aria-hidden="true">
                <path d="M3 12a9 9 0 0 1 15.74-5.74L21 8"/>
                <path d="M21 3v5h-5"/>
                <path d="M21 12a9 9 0 0 1-15.74 5.74L3 16"/>
                <path d="M3 21v-5h5"/>
              </svg>
            </button>
          </div>
        </div>
        <div class="graph-body">
          <div class="graph-main">
            <div class="graph-legend" aria-label="Graph legend">
              <span class="legend-item"><span class="legend-line is-solid"></span> Linear</span>
              <span class="legend-item"><span class="legend-line is-dotted"></span> Curve</span>
              <span class="legend-item"><span class="legend-line is-target"></span> Target</span>
              <span class="legend-item"><span class="legend-dot is-model"></span> Model shots</span>
              <span class="legend-item"><span class="legend-dot is-sample"></span> Other shots</span>
              <span class="legend-item"><span class="legend-zone"></span> Choke</span>
            </div>
            <div class="graph-wrap" id="graphWrap">
              <div class="empty">--</div>
            </div>
          </div>
          <div class="samples">
            <div class="samples-head">
              <div class="meta" id="sampleMeta"></div>
              <button class="icon-button add-sample-button" id="openSampleButton" type="button" aria-label="Add shot">
                <svg viewBox="0 0 24 24" fill="none" stroke-width="2.4" stroke-linecap="round" stroke-linejoin="round" aria-hidden="true">
                  <path d="M12 5v14"/>
                  <path d="M5 12h14"/>
                </svg>
              </button>
            </div>
            <div class="sample-list-head" aria-hidden="true">
              <span>Time</span>
              <span>Grind</span>
              <span></span>
            </div>
            <div class="sample-list" id="sampleList"></div>
          </div>
        </div>
      </div>
    </section>
  </main>
  <dialog class="modal" id="recipeDialog">
    <div class="modal-head">
      <h2>New Recipe</h2>
      <button class="icon-button" type="button" data-close-dialog="recipeDialog" aria-label="Close recipe dialog">
        <svg viewBox="0 0 24 24" fill="none" stroke-width="2" stroke-linecap="round" stroke-linejoin="round" aria-hidden="true">
          <path d="M18 6L6 18"/>
          <path d="M6 6l12 12"/>
        </svg>
      </button>
    </div>
    <form id="recipeForm" class="modal-form" method="dialog">
      <div class="field">
        <label for="recipeName">Recipe name</label>
        <input id="recipeName" name="recipe" autocomplete="off" required>
      </div>
      <div class="row">
        <div class="field">
          <label for="recipeDose">Dose grams</label>
          <input id="recipeDose" name="dose" inputmode="decimal" autocomplete="off" required>
        </div>
        <div class="field">
          <label for="recipeShotWeight">Shot grams</label>
          <input id="recipeShotWeight" name="shot_weight" inputmode="decimal" autocomplete="off" required>
        </div>
      </div>
      <button class="button goal-action" type="submit">
        <svg viewBox="0 0 24 24" fill="none" stroke-width="2" stroke-linecap="round" stroke-linejoin="round" aria-hidden="true">
          <rect width="8" height="4" x="8" y="2" rx="1" ry="1"/>
          <path d="M16 4h2a2 2 0 0 1 2 2v14a2 2 0 0 1-2 2H6a2 2 0 0 1-2-2V6a2 2 0 0 1 2-2h2"/>
          <path d="M9 14h6"/>
          <path d="M12 11v6"/>
        </svg>
        <span>Create Recipe</span>
      </button>
    </form>
  </dialog>
  <dialog class="modal" id="sampleDialog">
    <div class="modal-head">
      <h2>Add Shot</h2>
      <button class="icon-button" type="button" data-close-dialog="sampleDialog" aria-label="Close shot dialog">
        <svg viewBox="0 0 24 24" fill="none" stroke-width="2" stroke-linecap="round" stroke-linejoin="round" aria-hidden="true">
          <path d="M18 6L6 18"/>
          <path d="M6 6l12 12"/>
        </svg>
      </button>
    </div>
    <form id="sampleForm" class="modal-form" method="dialog">
      <div class="field">
        <label for="shotTime">Shot time</label>
        <input id="shotTime" name="time" inputmode="decimal" autocomplete="off" required>
      </div>
      <div class="toggle-field">
        <label for="chokedShot">Choked</label>
        <input id="chokedShot" name="choked" type="checkbox" value="1">
      </div>
      <div class="field manual-grind-field" id="manualGrindField">
        <label for="grind">Grind</label>
        <input id="grind" name="grind" inputmode="decimal" autocomplete="off" required>
      </div>
      <div class="field model-choice-field" id="modelChoiceField">
        <label>Grind model</label>
        <div class="model-choice-buttons">
          <button class="icon-button model-choice-button linear-model" id="linearModelButton" type="button" data-model="linear">
            <span class="model-label">Linear</span>
            <span class="model-value" id="linearModelValue">--</span>
          </button>
          <button class="icon-button model-choice-button curve-model" id="curveModelButton" type="button" data-model="curve">
            <span class="model-label">Curve</span>
            <span class="model-value" id="curveModelValue">--</span>
          </button>
        </div>
      </div>
      <button class="button sample-action" type="submit">
        <svg viewBox="0 0 24 24" fill="none" stroke-width="2" stroke-linecap="round" stroke-linejoin="round" aria-hidden="true">
          <path d="M6 2v2"/>
          <path d="M10 2v2"/>
          <path d="M14 2v2"/>
          <path d="M16 8a1 1 0 0 1 1 1v8a4 4 0 0 1-4 4H7a4 4 0 0 1-4-4V9a1 1 0 0 1 1-1h14a4 4 0 1 1 0 8h-1"/>
        </svg>
        <span>Add Shot</span>
      </button>
    </form>
  </dialog>
  <div class="toast" id="toast"></div>

  <script>
    const state = { selectedRecipe: "", targetTime: "30", recipes: [] };

    const els = {
      recipeSelect: document.querySelector("#recipeSelect"),
      targetTime: document.querySelector("#targetTime"),
      predictedGrind: document.querySelector("#predictedGrind"),
      curveGrind: document.querySelector("#curveGrind"),
      predictionBox: document.querySelector("#predictionBox"),
      targetMeta: document.querySelector("#targetMeta"),
      shotTime: document.querySelector("#shotTime"),
      chokedShot: document.querySelector("#chokedShot"),
      grind: document.querySelector("#grind"),
      graphWrap: document.querySelector("#graphWrap"),
      graphTitle: document.querySelector("#graphTitle"),
      sampleMeta: document.querySelector("#sampleMeta"),
      sampleList: document.querySelector("#sampleList"),
      sampleForm: document.querySelector("#sampleForm"),
      recipeForm: document.querySelector("#recipeForm"),
      sampleDialog: document.querySelector("#sampleDialog"),
      recipeDialog: document.querySelector("#recipeDialog"),
      linearModelButton: document.querySelector("#linearModelButton"),
      curveModelButton: document.querySelector("#curveModelButton"),
      linearModelValue: document.querySelector("#linearModelValue"),
      curveModelValue: document.querySelector("#curveModelValue"),
      openSampleButton: document.querySelector("#openSampleButton"),
      shotMeter: document.querySelector("#shotMeter"),
      shotMeterText: document.querySelector("#shotMeterText"),
      deleteRecipeButton: document.querySelector("#deleteRecipeButton"),
      toast: document.querySelector("#toast")
    };

    function params(values) {
      return new URLSearchParams(values);
    }

    async function api(path, options = {}) {
      const response = await fetch(path, options);
      const data = await response.json();
      if (!response.ok || data.error) {
        throw new Error(data.error || "Request failed");
      }
      return data;
    }

    async function loadState() {
      const query = params({ recipe: state.selectedRecipe, time: els.targetTime.value || state.targetTime });
      const data = await api(`/api/state?${query}`);
      render(data);
    }

    function render(data) {
      state.recipes = data.recipes;
      state.selectedRecipe = data.selected_recipe || "";
      state.targetTime = data.target_time;

      els.recipeSelect.innerHTML = "";
      for (const recipe of data.recipes) {
        const option = document.createElement("option");
        option.value = recipe.name;
        option.textContent = `${recipe.name}, Dose: ${grams(recipe.dose_weight_g)}, Out: ${grams(recipe.shot_weight_g)}`;
        option.selected = recipe.name === state.selectedRecipe;
        els.recipeSelect.append(option);
      }

      const recipe = data.recipes.find(item => item.name === state.selectedRecipe);
      els.targetTime.value = Math.round(Number(data.target_time));
      els.graphTitle.textContent = recipe ? recipe.name : "Shot graph";
      renderShotMeter(recipe);
      els.deleteRecipeButton.disabled = !recipe;
      els.openSampleButton.disabled = !recipe;

      const prediction = data.prediction;
      if (prediction && prediction.grind !== null) {
        els.predictedGrind.textContent = Number(prediction.grind).toFixed(2);
        els.curveGrind.textContent = prediction.curve_grind !== null
          ? `Curve ${Number(prediction.curve_grind).toFixed(2)}`
          : "Curve --";
        els.predictionBox.dataset.predictedGrind = Number(prediction.grind).toFixed(2);
        els.predictionBox.dataset.curveGrind = prediction.curve_grind !== null
          ? Number(prediction.curve_grind).toFixed(2)
          : "";
        els.predictionBox.classList.add("is-actionable");
        els.targetMeta.textContent = `${Math.round(Number(prediction.target_seconds))}s target`;
        els.graphWrap.innerHTML = prediction.graph_svg;
      } else {
        els.predictedGrind.textContent = "--";
        els.curveGrind.textContent = "Curve --";
        els.predictionBox.dataset.predictedGrind = "";
        els.predictionBox.dataset.curveGrind = "";
        els.predictionBox.classList.remove("is-actionable");
        els.targetMeta.textContent = `${Math.round(Number(data.target_time))}s target`;
        if (prediction?.graph_error) {
          els.graphWrap.innerHTML = `<div class="graph-error"><strong>Graph unavailable</strong><span>${escapeHtml(prediction.graph_error)}</span></div>`;
        } else {
          els.graphWrap.innerHTML = `<div class="empty">--</div>`;
        }
      }

      renderSamples(recipe);
    }

    function renderShotMeter(recipe) {
      const count = recipe ? Number(recipe.sample_count) : 0;
      const filled = Math.min(count, 6);
      const label = count === 1 ? "1 shot" : `${count} shots`;
      els.shotMeterText.textContent = label;
      els.shotMeter.setAttribute("aria-label", `${label} logged`);
      els.shotMeter.classList.toggle("is-hidden", !recipe);
      els.shotMeter.classList.toggle("is-empty", count === 0);
      els.shotMeter.querySelectorAll(".shot-notch").forEach((notch, index) => {
        notch.classList.toggle("is-filled", index < filled);
      });
    }

    function renderSamples(recipe) {
      els.sampleList.innerHTML = "";
      if (!recipe) {
        els.sampleMeta.textContent = "";
        return;
      }
      const sampleCount = Number(recipe.sample_count);
      els.sampleMeta.textContent = sampleCount === 1 ? "1 logged shot" : `${sampleCount} logged shots`;
      if (sampleCount === 0) {
        els.sampleList.innerHTML = `<div class="empty">No shots yet</div>`;
        return;
      }
      for (const sample of [...recipe.samples].reverse()) {
        const row = document.createElement("div");
        const timeLabel = sample.choked ? "Choked" : sample.time;
        row.className = sample.choked ? "sample is-choked" : "sample";
        row.innerHTML = `<span class="sample-cell"><svg viewBox="0 0 24 24" fill="none" stroke-width="2" stroke-linecap="round" stroke-linejoin="round" aria-hidden="true"><line x1="10" x2="14" y1="2" y2="2"/><line x1="12" x2="15" y1="14" y2="11"/><circle cx="12" cy="14" r="8"/></svg><span>${escapeHtml(timeLabel)}</span></span><span class="sample-cell"><svg viewBox="0 0 24 24" fill="none" stroke-width="2" stroke-linecap="round" stroke-linejoin="round" aria-hidden="true"><path d="M3.34 19a10 10 0 1 1 17.32 0"/><path d="m12 14 4-4"/></svg><span>${escapeHtml(sample.grind)}</span></span><button class="icon-button danger delete-sample" type="button" data-sample-index="${sample.index}" data-sample-label="${escapeHtml(`${timeLabel} at grind ${sample.grind}`)}" aria-label="Delete shot"><svg viewBox="0 0 24 24" fill="none" stroke-width="2" stroke-linecap="round" stroke-linejoin="round" aria-hidden="true"><path d="M3 6h18"/><path d="M8 6V4h8v2"/><path d="M19 6l-1 14H6L5 6"/><path d="M10 11v5"/><path d="M14 11v5"/></svg></button>`;
        els.sampleList.append(row);
      }
    }

    function escapeHtml(value) {
      return String(value).replace(/[&<>"']/g, character => ({
        "&": "&amp;",
        "<": "&lt;",
        ">": "&gt;",
        '"': "&quot;",
        "'": "&#039;"
      }[character]));
    }

    function grams(value) {
      const text = String(value || "").trim();
      return text.endsWith("g") ? text : `${text}g`;
    }

    function showToast(message, isError = false) {
      els.toast.textContent = message;
      els.toast.className = `toast is-visible${isError ? " is-error" : ""}`;
      clearTimeout(showToast.timeout);
      showToast.timeout = setTimeout(() => {
        els.toast.className = "toast";
      }, 2600);
    }

    function openDialog(dialog, focusTarget) {
      if (!dialog.open) {
        dialog.showModal();
      }
      requestAnimationFrame(() => focusTarget?.focus());
    }

    function fillPredictedGrind() {
      const predictedGrind = els.predictionBox.dataset.predictedGrind;
      if (!predictedGrind) {
        return false;
      }
      els.grind.value = predictedGrind;
      return true;
    }

    function resetModelChoice() {
      els.linearModelButton.classList.remove("is-selected");
      els.curveModelButton.classList.remove("is-selected");
      els.linearModelButton.setAttribute("aria-pressed", "false");
      els.curveModelButton.setAttribute("aria-pressed", "false");
    }

    function syncChokedShot() {
      const choked = els.chokedShot.checked;
      els.shotTime.required = !choked;
      els.shotTime.disabled = choked;
      if (choked) {
        els.shotTime.value = "";
      }
    }

    function openManualSampleDialog() {
      els.sampleForm.classList.remove("is-model-choice");
      els.chokedShot.checked = false;
      syncChokedShot();
      els.grind.required = true;
      resetModelChoice();
      fillPredictedGrind();
      openDialog(els.sampleDialog, els.shotTime);
    }

    function openModelChoiceSampleDialog() {
      const linearGrind = els.predictionBox.dataset.predictedGrind;
      const curveGrind = els.predictionBox.dataset.curveGrind;
      if (!linearGrind) {
        return false;
      }

      els.sampleForm.reset();
      syncChokedShot();
      els.grind.required = false;
      els.grind.value = "";
      resetModelChoice();
      els.sampleForm.classList.add("is-model-choice");
      els.linearModelButton.dataset.grind = linearGrind;
      els.curveModelButton.dataset.grind = curveGrind || "";
      els.linearModelValue.textContent = linearGrind;
      els.curveModelValue.textContent = curveGrind || "--";
      els.curveModelButton.disabled = !curveGrind;
      openDialog(els.sampleDialog, els.shotTime);
      return true;
    }

    function chooseModelGrind(button) {
      const grind = button.dataset.grind;
      if (!grind) {
        return;
      }
      els.grind.value = grind;
      resetModelChoice();
      button.classList.add("is-selected");
      button.setAttribute("aria-pressed", "true");
    }

    els.recipeSelect.addEventListener("change", () => {
      state.selectedRecipe = els.recipeSelect.value;
      loadState().catch(error => showToast(error.message, true));
    });

    els.targetTime.addEventListener("change", () => {
      loadState().catch(error => showToast(error.message, true));
    });

    document.querySelector("#refreshButton").addEventListener("click", () => {
      loadState().catch(error => showToast(error.message, true));
    });

    els.predictionBox.addEventListener("click", () => {
      if (!openModelChoiceSampleDialog()) {
        return;
      }
    });

    document.querySelector("#toggleRecipeButton").addEventListener("click", () => {
      openDialog(els.recipeDialog, document.querySelector("#recipeName"));
    });

    els.openSampleButton.addEventListener("click", () => {
      openManualSampleDialog();
    });

    els.linearModelButton.addEventListener("click", () => chooseModelGrind(els.linearModelButton));
    els.curveModelButton.addEventListener("click", () => chooseModelGrind(els.curveModelButton));
    els.chokedShot.addEventListener("change", syncChokedShot);

    document.querySelectorAll("[data-close-dialog]").forEach(button => {
      button.addEventListener("click", () => {
        document.querySelector(`#${button.dataset.closeDialog}`)?.close();
      });
    });

    els.deleteRecipeButton.addEventListener("click", async () => {
      if (!state.selectedRecipe) {
        return;
      }
      if (!confirm(`Delete recipe "${state.selectedRecipe}" and all of its shots?`)) {
        return;
      }
      try {
        const data = await api("/api/recipes/delete", {
          method: "POST",
          headers: { "Content-Type": "application/x-www-form-urlencoded" },
          body: params({ recipe: state.selectedRecipe, target_time: els.targetTime.value })
        });
        render(data);
        showToast("Recipe deleted");
      } catch (error) {
        showToast(error.message, true);
      }
    });

    els.sampleList.addEventListener("click", async event => {
      const button = event.target.closest(".delete-sample");
      if (!button) {
        return;
      }
      const label = button.dataset.sampleLabel || "this shot";
      if (!confirm(`Delete shot ${label}?`)) {
        return;
      }
      try {
        const data = await api("/api/samples/delete", {
          method: "POST",
          headers: { "Content-Type": "application/x-www-form-urlencoded" },
          body: params({
            recipe: state.selectedRecipe,
            sample_index: button.dataset.sampleIndex,
            target_time: els.targetTime.value
          })
        });
        render(data);
        showToast("Shot deleted");
      } catch (error) {
        showToast(error.message, true);
      }
    });

    els.sampleForm.addEventListener("submit", async event => {
      event.preventDefault();
      if (els.sampleForm.classList.contains("is-model-choice") && !els.grind.value) {
        showToast("Choose Linear or Curve grind", true);
        return;
      }
      try {
        const body = params({
          recipe: state.selectedRecipe,
          time: els.shotTime.value,
          grind: els.grind.value,
          choked: els.chokedShot.checked ? "1" : "0",
          target_time: els.targetTime.value
        });
        const data = await api("/api/samples", {
          method: "POST",
          headers: { "Content-Type": "application/x-www-form-urlencoded" },
          body
        });
        event.target.reset();
        syncChokedShot();
        els.sampleForm.classList.remove("is-model-choice");
        els.grind.required = true;
        resetModelChoice();
        els.sampleDialog.close();
        render(data);
        showToast("Shot added");
      } catch (error) {
        showToast(error.message, true);
      }
    });

    els.recipeForm.addEventListener("submit", async event => {
      event.preventDefault();
      try {
        const form = new FormData(event.target);
        const data = await api("/api/recipes", {
          method: "POST",
          headers: { "Content-Type": "application/x-www-form-urlencoded" },
          body: params({ recipe: form.get("recipe"), dose: form.get("dose"), shot_weight: form.get("shot_weight") })
        });
        event.target.reset();
        els.recipeDialog.close();
        render(data);
        showToast("Recipe created");
      } catch (error) {
        showToast(error.message, true);
      }
    });

    loadState().catch(error => showToast(error.message, true));
  </script>
</body>
</html>
"###
}

} // verus!
