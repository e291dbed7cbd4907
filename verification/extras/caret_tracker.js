// Tells where the caret of a page stands, in lines of the page's console that begin with
// __CARET__: and hold its place and size.
(function() {
    if (window.__cefUnityCaretTracker) return;
    window.__cefUnityCaretTracker = true;

    var MIRROR_PROPERTIES = [
        "direction", "boxSizing", "width", "height", "overflowX", "overflowY",
        "borderTopWidth", "borderRightWidth", "borderBottomWidth", "borderLeftWidth",
        "borderStyle",
        "paddingTop", "paddingRight", "paddingBottom", "paddingLeft",
        "fontStyle", "fontVariant", "fontWeight", "fontStretch", "fontSize",
        "fontSizeAdjust", "lineHeight", "fontFamily",
        "textAlign", "textTransform", "textIndent", "textDecoration",
        "letterSpacing", "wordSpacing", "tabSize"
    ];

    function lineHeightOf(computed) {
        var lineHeight = parseFloat(computed.lineHeight);
        if (!lineHeight) lineHeight = (parseFloat(computed.fontSize) || 16) * 1.2;
        return lineHeight;
    }

    // The kinds of input that have a selection; the others throw when they are asked for it.
    function isTextControl(element) {
        if (!element || !element.nodeName) return false;
        if (element.nodeName === "TEXTAREA") return true;
        if (element.nodeName !== "INPUT") return false;
        var typeName = (element.type || "text").toLowerCase();
        return typeName === "text" || typeName === "search" || typeName === "tel" ||
               typeName === "url" || typeName === "password";
    }

    // The beginning of a field, for want of the caret itself.
    function elementCaretFallback(element) {
        var rect = element.getBoundingClientRect();
        var computed = window.getComputedStyle(element);
        return {
            x: rect.left + (parseInt(computed.borderLeftWidth) || 0) + (parseInt(computed.paddingLeft) || 0),
            y: rect.top + (parseInt(computed.borderTopWidth) || 0) + (parseInt(computed.paddingTop) || 0),
            height: lineHeightOf(computed)
        };
    }

    // Measures the caret of a text field on a hidden copy of its text.
    function textControlCaretRect(element) {
        var position = element.selectionEnd || 0;
        var computed = window.getComputedStyle(element);
        var isInput = element.nodeName === "INPUT";

        var div = document.createElement("div");
        div.style.position = "absolute";
        div.style.visibility = "hidden";
        div.style.top = "-9999px";
        div.style.left = "0";
        for (var index = 0; index < MIRROR_PROPERTIES.length; index++) {
            div.style[MIRROR_PROPERTIES[index]] = computed[MIRROR_PROPERTIES[index]];
        }
        div.style.whiteSpace = "pre-wrap";
        if (!isInput) div.style.wordWrap = "break-word";
        div.style.overflow = "hidden";

        var value = element.value || "";
        if (element.type === "password") value = "•".repeat(value.length);
        var before = value.substring(0, position);
        if (isInput) before = before.replace(/\s/g, " ");
        div.textContent = before;

        var span = document.createElement("span");
        span.textContent = value.substring(position) || ".";
        div.appendChild(span);
        document.body.appendChild(div);

        var elementRect = element.getBoundingClientRect();
        var x = elementRect.left + (parseInt(computed.borderLeftWidth) || 0) +
                span.offsetLeft - element.scrollLeft;
        var y = elementRect.top + (parseInt(computed.borderTopWidth) || 0) +
                span.offsetTop - element.scrollTop;
        document.body.removeChild(div);

        return { x: x, y: y, height: lineHeightOf(computed) };
    }

    // Takes the end of the selection in an editable element.
    function selectionCaretRect(element) {
        var selection = window.getSelection();
        if (selection && selection.rangeCount > 0) {
            var range = selection.getRangeAt(0).cloneRange();
            range.collapse(false);
            var rect = range.getBoundingClientRect();
            if (rect && rect.height > 0) {
                return { x: rect.left, y: rect.top, height: rect.height };
            }
        }
        // An empty element has no such end.
        return elementCaretFallback(element);
    }

    function reportCaret() {
        var element = document.activeElement;
        var rect = null;
        try {
            if (isTextControl(element)) {
                rect = textControlCaretRect(element);
            } else if (element && element.isContentEditable) {
                rect = selectionCaretRect(element);
            } else if (element && (element.nodeName === "INPUT" || element.nodeName === "TEXTAREA")) {
                // Kinds of input without a selection.
                rect = elementCaretFallback(element);
            }
        } catch (error) {
            if (element && element.getBoundingClientRect) rect = elementCaretFallback(element);
        }
        if (!rect) return;
        console.log("__CARET__:" +
            Math.round(rect.x) + ":" +
            Math.round(rect.y) + ":0:" +
            Math.round(rect.height));
    }

    document.addEventListener("selectionchange", reportCaret);
    document.addEventListener("click", function() {
        setTimeout(reportCaret, 0);
    });
    document.addEventListener("focusin", function() {
        setTimeout(reportCaret, 0);
    });
    document.addEventListener("keyup", function(event) {
        if (["ArrowLeft","ArrowRight","ArrowUp","ArrowDown","Home","End"].includes(event.key)) {
            reportCaret();
        }
    });
    document.addEventListener("input", function() {
        setTimeout(reportCaret, 0);
    });
})();
